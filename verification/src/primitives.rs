//! Identifiers and fixed-width byte values shared by the whole library.

use vstd::prelude::*;

verus! {

/// Serial number of a priority operation, as assigned by the L1 contract.
pub type SerialId = u64;

/// Identifier of the token that pays for L1 gas; it is always the first token.
pub const RBTC_TOKEN_ID: u32 = 0;

/// Number of a rollup block; genesis is block 0.
#[derive(Clone, Copy, Debug, PartialEq, Eq, Structural, Hash, PartialOrd, Ord, Default)]
pub struct BlockNumber(pub u32);

/// Identifier of an account in the rollup's account tree.
#[derive(Clone, Copy, Debug, PartialEq, Eq, Structural, Hash, PartialOrd, Ord, Default)]
pub struct AccountId(pub u32);

/// Identifier of a token in the rollup.
#[derive(Clone, Copy, Debug, PartialEq, Eq, Structural, Hash, PartialOrd, Ord, Default)]
pub struct TokenId(pub u32);

/// A 20-byte L1 address, most significant byte first.
#[derive(Clone, Copy, Debug, PartialEq, Eq, Hash, PartialOrd, Ord, Default)]
pub struct Address(pub [u8; 20]);

/// A 32-byte word: a transaction hash, a log topic or a root hash.
#[derive(Clone, Copy, Debug, PartialEq, Eq, Hash, PartialOrd, Ord, Default)]
pub struct H256(pub [u8; 32]);

/// Value of a big-endian byte string.
pub open spec fn be_value(bytes: Seq<u8>) -> nat
    decreases bytes.len(),
{
    if bytes.len() == 0 {
        0
    } else {
        256 * be_value(bytes.drop_last()) + bytes.last() as nat
    }
}

/// Whether two byte strings hold the same bytes, decided by running over them.
pub fn bytes_equal(a: &[u8], b: &[u8]) -> (same: bool)
    ensures
        same == (a@ == b@),
{
    if a.len() != b.len() {
        return false;
    }
    let mut i: usize = 0;
    while i < a.len()
        invariant
            i <= a.len(),
            a.len() == b.len(),
            forall|j: int| 0 <= j < i ==> a@[j] == b@[j],
        decreases a.len() - i,
    {
        if a[i] != b[i] {
            return false;
        }
        i += 1;
    }
    assert(a@ =~= b@);
    true
}

impl View for Address {
    type V = Seq<u8>;

    open spec fn view(&self) -> Seq<u8> {
        self.0@
    }
}

impl Address {
    /// The all-zero address.
    pub fn zero() -> (a: Address)
        ensures
            a@ == Seq::new(20, |i: int| 0u8),
    {
        let a = Address([0u8; 20]);
        assert(a@ =~= Seq::new(20, |i: int| 0u8));
        a
    }

    /// Whether every byte of the address is zero.
    pub fn is_zero(&self) -> (zero: bool)
        ensures
            zero == (self@ == Seq::new(20, |i: int| 0u8)),
    {
        let mut i: usize = 0;
        while i < 20
            invariant
                i <= 20,
                forall|j: int| 0 <= j < i ==> self.0@[j] == 0u8,
            decreases 20 - i,
        {
            if self.0[i] != 0 {
                return false;
            }
            i += 1;
        }
        assert(self@ =~= Seq::new(20, |i: int| 0u8));
        true
    }

    /// Whether two addresses hold the same bytes.
    pub fn same_as(&self, other: &Address) -> (same: bool)
        ensures
            same == (self@ == other@),
    {
        bytes_equal(self.0.as_slice(), other.0.as_slice())
    }
}

impl View for H256 {
    type V = Seq<u8>;

    open spec fn view(&self) -> Seq<u8> {
        self.0@
    }
}

impl H256 {
    /// Whether two words hold the same bytes.
    pub fn same_as(&self, other: &H256) -> (same: bool)
        ensures
            same == (self@ == other@),
    {
        bytes_equal(self.0.as_slice(), other.0.as_slice())
    }

    /// The address held in the low 20 bytes of the word.
    pub fn low_address(&self) -> (a: Address)
        ensures
            a@ == self@.subrange(12, 32),
    {
        let mut out: [u8; 20] = [0u8; 20];
        let mut i: usize = 0;
        while i < 20
            invariant
                i <= 20,
                forall|j: int| 0 <= j < i ==> out@[j] == self.0@[j + 12],
            decreases 20 - i,
        {
            out[i] = self.0[i + 12];
            i += 1;
        }
        let a = Address(out);
        assert(a@ =~= self@.subrange(12, 32));
        a
    }

    /// The word read as a big-endian number, where it fits 32 bits.
    pub fn to_u32(&self) -> (v: Option<u32>)
        ensures
            v matches Some(n) ==> n as nat == be_value(self@),
            v is None <==> be_value(self@) > u32::MAX,
    {
        let mut acc: u64 = 0;
        let mut i: usize = 0;
        let mut overflow: bool = false;
        while i < 32
            invariant
                i <= 32,
                self@.len() == 32,
                !overflow ==> acc as nat == be_value(self@.subrange(0, i as int)),
                !overflow ==> acc <= u32::MAX,
                overflow ==> be_value(self@.subrange(0, i as int)) > u32::MAX,
            decreases 32 - i,
        {
            let b: u8 = self.0[i];
            proof {
                let next = self@.subrange(0, i + 1);
                assert(next.drop_last() =~= self@.subrange(0, i as int));
                assert(next.last() == b);
            }
            if !overflow {
                let wide: u64 = acc * 256 + b as u64;
                if wide > u32::MAX as u64 {
                    overflow = true;
                } else {
                    acc = wide;
                }
            }
            i += 1;
        }
        assert(self@.subrange(0, 32) =~= self@);
        if overflow {
            None
        } else {
            Some(acc as u32)
        }
    }
}

} // verus!
