//! The restore driver's record of the account tree: which block it stands at,
//! the accounts, and how many priority operations were processed.

use vstd::prelude::*;
use std::collections::HashMap;
use crate::account::Account;
use crate::error::ErrorKind;
use crate::primitives::{AccountId, BlockNumber};

verus! {

broadcast use vstd::std_specs::hash::group_hash_axioms;

/// What the bookkeeping reads of one decoded rollup operation.
#[derive(Clone, Copy, Debug, PartialEq, Eq, Structural)]
pub struct RollupOp {
    /// The number of chunks that the operation fills in its block.
    pub chunks: u32,
    /// Whether the operation was requested through L1.
    pub priority: bool,
}

/// The operations of one rollup block, decoded from the L1 transaction that
/// committed it.
#[derive(Clone, Debug, PartialEq, Eq)]
pub struct RollupOpsBlock {
    /// The number of the rollup block.
    pub block_num: BlockNumber,
    /// The operations of the block, in order.
    pub ops: Vec<RollupOp>,
    /// The account that collects the fees of the block.
    pub fee_account: AccountId,
    /// The time of the block, where the contract version records one.
    pub timestamp: Option<u64>,
    /// The version of the contract that the block was committed under.
    pub contract_version: Option<u32>,
}

/// The chunks that `ops` fill together.
pub open spec fn total_chunks(ops: Seq<RollupOp>) -> nat
    decreases ops.len(),
{
    if ops.len() == 0 {
        0
    } else {
        total_chunks(ops.drop_last()) + ops.last().chunks as nat
    }
}

/// The number of priority operations among `ops`.
pub open spec fn priority_count(ops: Seq<RollupOp>) -> nat
    decreases ops.len(),
{
    if ops.len() == 0 {
        0
    } else {
        priority_count(ops.drop_last()) + if ops.last().priority {
            1nat
        } else {
            0nat
        }
    }
}

/// Why a block is not applied to the tree.
#[derive(Clone, Copy, Debug, PartialEq, Eq, Structural)]
pub enum TreeError {
    /// The block does not follow the block that the tree stands at.
    OutOfOrderBlock { expected: u64, found: u32 },
    /// The block's chunks are no size that its contract version admits.
    OpsDecodeError { chunks: u64 },
    /// The priority operations of the block would carry a counter past its range.
    PriorityCounterOverflow,
}

impl TreeError {
    /// The kind of failure: a block whose chunks are not admitted does not
    /// decode; every other refusal is a broken invariant of the tree.
    pub open spec fn kind_of(self) -> ErrorKind {
        match self {
            TreeError::OpsDecodeError { .. } => ErrorKind::OpsDecode,
            _ => ErrorKind::InvariantViolation,
        }
    }

    /// The kind of failure.
    #[verifier::when_used_as_spec(kind_of)]
    pub fn kind(self) -> (kind: ErrorKind)
        ensures
            kind == self.kind_of(),
    {
        match self {
            TreeError::OpsDecodeError { .. } => ErrorKind::OpsDecode,
            _ => ErrorKind::InvariantViolation,
        }
    }
}

/// A block that the tree refuses ends the restore, whether or not a database
/// transaction is open: the refusal is never passed over.
pub proof fn lemma_tree_errors_are_fatal(error: TreeError, in_transaction: bool)
    ensures
        error.kind_of().is_fatal_spec(in_transaction),
{
}

/// What applying a block did.
#[derive(Clone, Copy, Debug, PartialEq, Eq, Structural)]
pub struct AppliedBlock {
    /// The number of the block.
    pub block_number: BlockNumber,
    /// The account that collected the fees.
    pub fee_account: AccountId,
    /// The chunks of the block.
    pub block_chunks_size: u64,
    /// The serial number of the block's first priority operation.
    pub first_priority_serial_id: u64,
    /// The number of priority operations in the block.
    pub priority_ops: u64,
}

/// The driver's record of the account tree.
#[derive(Debug, Clone, PartialEq, Eq)]
pub struct TreeState {
    /// The last block that was applied.
    pub block_number: BlockNumber,
    /// The accounts, by account identifier.
    pub accounts: HashMap<u32, Account>,
    /// The account that collected the fees of the last block.
    pub last_fee_account: AccountId,
    /// The number of priority operations that were processed.
    pub current_unprocessed_priority_op: u64,
}

/// Whether a block with these operations may follow block `current`, and if
/// not, why. The checks are made in this order: the block's number, its
/// chunks, the counters.
pub open spec fn block_refusal(
    current: BlockNumber,
    tree_counter: u64,
    serial_id: u64,
    block: RollupOpsBlock,
    allowed_chunk_sizes: Seq<u64>,
) -> Option<TreeError> {
    let chunks = total_chunks(block.ops@);
    let priority = priority_count(block.ops@);
    if block.block_num.0 != current.0 + 1 {
        Some(TreeError::OutOfOrderBlock { expected: (current.0 + 1) as u64, found: block.block_num.0 })
    } else if !(chunks <= u64::MAX && allowed_chunk_sizes.contains(chunks as u64)) {
        Some(
            TreeError::OpsDecodeError {
                chunks: if chunks <= u64::MAX {
                    chunks as u64
                } else {
                    u64::MAX
                },
            },
        )
    } else if tree_counter + priority > u64::MAX || serial_id + priority > u64::MAX {
        Some(TreeError::PriorityCounterOverflow)
    } else {
        None
    }
}

/// Counts the chunks and the priority operations of `ops`. A count that does
/// not fit is given as `None`.
pub fn count_ops(ops: &Vec<RollupOp>) -> (counts: (Option<u64>, Option<u64>))
    ensures
        match counts.0 {
            Some(c) => c as nat == total_chunks(ops@),
            None => total_chunks(ops@) > u64::MAX,
        },
        match counts.1 {
            Some(p) => p as nat == priority_count(ops@),
            None => priority_count(ops@) > u64::MAX,
        },
{
    let mut chunks: Option<u64> = Some(0);
    let mut priority: Option<u64> = Some(0);
    let mut i: usize = 0;
    while i < ops.len()
        invariant
            i <= ops.len(),
            match chunks {
                Some(c) => c as nat == total_chunks(ops@.subrange(0, i as int)),
                None => total_chunks(ops@.subrange(0, i as int)) > u64::MAX,
            },
            match priority {
                Some(p) => p as nat == priority_count(ops@.subrange(0, i as int)),
                None => priority_count(ops@.subrange(0, i as int)) > u64::MAX,
            },
        decreases ops.len() - i,
    {
        proof {
            let next = ops@.subrange(0, i + 1);
            assert(next.drop_last() =~= ops@.subrange(0, i as int));
            assert(next.last() == ops@[i as int]);
        }
        chunks = match chunks {
            Some(c) => c.checked_add(ops[i].chunks as u64),
            None => None,
        };
        if ops[i].priority {
            priority = match priority {
                Some(p) => p.checked_add(1),
                None => None,
            };
        }
        i += 1;
    }
    assert(ops@.subrange(0, ops.len() as int) =~= ops@);
    (chunks, priority)
}

/// Whether `sizes` holds `size`.
pub fn holds_size(sizes: &[u64], size: u64) -> (held: bool)
    ensures
        held == sizes@.contains(size),
{
    let mut i: usize = 0;
    while i < sizes.len()
        invariant
            i <= sizes.len(),
            forall|j: int| 0 <= j < i ==> sizes@[j] != size,
        decreases sizes.len() - i,
    {
        if sizes[i] == size {
            return true;
        }
        i += 1;
    }
    false
}

impl TreeState {
    /// An empty tree before genesis.
    pub fn new() -> (tree: TreeState)
        ensures
            tree.block_number == BlockNumber(0),
            tree.accounts@ == Map::<u32, Account>::empty(),
            tree.last_fee_account == AccountId(0),
            tree.current_unprocessed_priority_op == 0,
    {
        TreeState {
            block_number: BlockNumber(0),
            accounts: HashMap::new(),
            last_fee_account: AccountId(0),
            current_unprocessed_priority_op: 0,
        }
    }

    /// The tree of a snapshot.
    pub fn load(
        current_block: BlockNumber,
        accounts: HashMap<u32, Account>,
        current_unprocessed_priority_op: u64,
        fee_account: AccountId,
    ) -> (tree: TreeState)
        ensures
            tree.block_number == current_block,
            tree.accounts == accounts,
            tree.last_fee_account == fee_account,
            tree.current_unprocessed_priority_op == current_unprocessed_priority_op,
    {
        TreeState {
            block_number: current_block,
            accounts,
            last_fee_account: fee_account,
            current_unprocessed_priority_op,
        }
    }

    /// The account with this identifier, if the tree has one.
    pub fn get_account(&self, id: AccountId) -> (account: Option<&Account>)
        ensures
            match account {
                Some(a) => self.accounts@.contains_key(id.0) && *a == self.accounts@[id.0],
                None => !self.accounts@.contains_key(id.0),
            },
    {
        self.accounts.get(&id.0)
    }

    /// Moves the tree to the next block. The block must follow the one the
    /// tree stands at, and its chunks must be a size that its contract
    /// version admits. Its priority operations take the serial numbers from
    /// `priority_serial_id` on, one each, in order. Where the block is
    /// refused, nothing changes.
    pub fn update_tree_states_from_ops_block(
        &mut self,
        block: &RollupOpsBlock,
        allowed_chunk_sizes: &[u64],
        priority_serial_id: &mut u64,
    ) -> (applied: Result<AppliedBlock, TreeError>)
        ensures
            match applied {
                Ok(done) => {
                    &&& block_refusal(
                        old(self).block_number,
                        old(self).current_unprocessed_priority_op,
                        *old(priority_serial_id),
                        *block,
                        allowed_chunk_sizes@,
                    ) is None
                    &&& final(self).block_number == block.block_num
                    &&& final(self).block_number.0 == old(self).block_number.0 + 1
                    &&& final(self).last_fee_account == block.fee_account
                    &&& final(self).accounts == old(self).accounts
                    &&& final(self).current_unprocessed_priority_op == old(
                        self,
                    ).current_unprocessed_priority_op + priority_count(block.ops@)
                    &&& *final(priority_serial_id) == *old(priority_serial_id) + priority_count(
                        block.ops@,
                    )
                    &&& done == (AppliedBlock {
                        block_number: block.block_num,
                        fee_account: block.fee_account,
                        block_chunks_size: total_chunks(block.ops@) as u64,
                        first_priority_serial_id: *old(priority_serial_id),
                        priority_ops: priority_count(block.ops@) as u64,
                    })
                },
                Err(e) => {
                    &&& block_refusal(
                        old(self).block_number,
                        old(self).current_unprocessed_priority_op,
                        *old(priority_serial_id),
                        *block,
                        allowed_chunk_sizes@,
                    ) == Some(e)
                    &&& *final(self) == *old(self)
                    &&& *final(priority_serial_id) == *old(priority_serial_id)
                },
            },
    {
        let expected: u64 = self.block_number.0 as u64 + 1;
        if block.block_num.0 as u64 != expected {
            return Err(TreeError::OutOfOrderBlock { expected, found: block.block_num.0 });
        }
        let (chunks, priority) = count_ops(&block.ops);
        let chunks: u64 = match chunks {
            Some(c) => c,
            None => {
                return Err(TreeError::OpsDecodeError { chunks: u64::MAX });
            },
        };
        if !holds_size(allowed_chunk_sizes, chunks) {
            return Err(TreeError::OpsDecodeError { chunks });
        }
        let priority: u64 = match priority {
            Some(p) => p,
            None => {
                return Err(TreeError::PriorityCounterOverflow);
            },
        };
        let tree_counter: u64 = match self.current_unprocessed_priority_op.checked_add(priority) {
            Some(c) => c,
            None => {
                return Err(TreeError::PriorityCounterOverflow);
            },
        };
        let serial_id: u64 = match (*priority_serial_id).checked_add(priority) {
            Some(s) => s,
            None => {
                return Err(TreeError::PriorityCounterOverflow);
            },
        };
        let done = AppliedBlock {
            block_number: block.block_num,
            fee_account: block.fee_account,
            block_chunks_size: chunks,
            first_priority_serial_id: *priority_serial_id,
            priority_ops: priority,
        };
        self.block_number = block.block_num;
        self.last_fee_account = block.fee_account;
        self.current_unprocessed_priority_op = tree_counter;
        *priority_serial_id = serial_id;
        Ok(done)
    }
}

} // verus!
