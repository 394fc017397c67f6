//! Tokens of the rollup, and the values by which a request may name one.

use vstd::prelude::*;
use vstd::string::StrSliceExecFns;
use vstd::string::StringExecFns;
use crate::primitives::{AccountId, Address, H256, TokenId, be_value, RBTC_TOKEN_ID};
use crate::text::{
    bytes_to_hex, decimal_text, hex_text, i32_to_decimal, lemma_parse_of_decimal_text, parse_u32,
    parse_u32_text, signed_decimal_text, strip_0x, u64_to_decimal, without_0x,
};

verus! {

/// The address that the L1 address parser reads from `text`, or `None` where
/// it rejects the text.
pub uninterp spec fn h160_from_text(text: Seq<char>) -> Option<Seq<u8>>;

/// The lower-case form of `text`, by the Unicode rules of the standard library.
pub uninterp spec fn lowercase_text(text: Seq<char>) -> Seq<char>;

/// Calls `H160::from_str` of the `web3` crate's types. Nothing is claimed of
/// which texts it takes: the contract only gives its answer a name, as a
/// function of the text, and says that an address has the bytes it returned.
#[verifier::external_body]
fn address_from_text(text: &str) -> (parsed: Option<Address>)
    ensures
        match parsed {
            Some(a) => h160_from_text(text@) == Some(a@),
            None => h160_from_text(text@) is None,
        },
{
    match <web3::types::H160 as std::str::FromStr>::from_str(text) {
        Ok(address) => Some(Address(address.0)),
        Err(_) => None,
    }
}

/// Calls `str::to_lowercase` of the standard library. The contract only gives
/// its answer a name, as a function of the text.
#[verifier::external_body]
fn lowercase(text: &str) -> (lower: String)
    ensures
        lower@ == lowercase_text(text@),
{
    text.to_lowercase()
}

/// A value that can stand for a token in a request.
#[derive(Debug, Clone, PartialEq, Eq, Hash)]
pub enum TokenLike {
    /// The token's identifier in the rollup.
    Id(TokenId),
    /// The token's address on L1.
    Address(Address),
    /// The token's symbol, such as "RBTC".
    Symbol(String),
}

/// What a `TokenLike` holds.
pub enum TokenLikeView {
    Id(u32),
    Address(Seq<u8>),
    Symbol(Seq<char>),
}

impl View for TokenLike {
    type V = TokenLikeView;

    open spec fn view(&self) -> TokenLikeView {
        match self {
            TokenLike::Id(id) => TokenLikeView::Id(id.0),
            TokenLike::Address(address) => TokenLikeView::Address(address@),
            TokenLike::Symbol(symbol) => TokenLikeView::Symbol(symbol@),
        }
    }
}

/// What `text` stands for, where `address` is what the L1 address parser made
/// of the text without its `0x`: a number is an identifier, failing that an
/// address is an address, and anything else is a symbol.
pub open spec fn classified(text: Seq<char>, address: Option<Seq<u8>>) -> TokenLikeView {
    match parse_u32_text(text) {
        Some(id) => TokenLikeView::Id(id),
        None => match address {
            Some(a) => TokenLikeView::Address(a),
            None => TokenLikeView::Symbol(text),
        },
    }
}

/// The lower case of an ASCII capital; any other character unchanged.
pub open spec fn ascii_lower(c: char) -> char {
    if 65 <= c as u32 <= 90 {
        ((c as u32 + 32) as u8) as char
    } else {
        c
    }
}

/// Whether `symbol` is `rbtc` in any mix of ASCII capitals and small letters.
pub open spec fn is_rbtc_symbol(symbol: Seq<char>) -> bool {
    &&& symbol.len() == 4
    &&& ascii_lower(symbol[0]) == 'r'
    &&& ascii_lower(symbol[1]) == 'b'
    &&& ascii_lower(symbol[2]) == 't'
    &&& ascii_lower(symbol[3]) == 'c'
}

/// Whether a descriptor names the rollup's first token.
pub open spec fn names_rbtc(token: TokenLikeView) -> bool {
    match token {
        TokenLikeView::Id(id) => id == RBTC_TOKEN_ID,
        TokenLikeView::Address(address) => address == Seq::new(20, |i: int| 0u8),
        TokenLikeView::Symbol(symbol) => is_rbtc_symbol(symbol),
    }
}

/// The descriptor with its symbol in lower case.
pub open spec fn lowercased(token: TokenLikeView) -> TokenLikeView {
    match token {
        TokenLikeView::Symbol(symbol) => TokenLikeView::Symbol(lowercase_text(symbol)),
        other => other,
    }
}

/// The text that a descriptor prints as: the identifier in decimal, the
/// address in lower-case hexadecimal behind `0x`, the symbol as it is.
pub open spec fn token_like_text(token: TokenLikeView) -> Seq<char> {
    match token {
        TokenLikeView::Id(id) => decimal_text(id as nat),
        TokenLikeView::Address(address) => seq!['0', 'x'] + hex_text(address),
        TokenLikeView::Symbol(symbol) => symbol,
    }
}

/// A descriptor that names a token by its identifier reads back as itself
/// from the text it prints as, whatever the address parser makes of that text.
pub proof fn lemma_id_reads_back(id: u32, address: Option<Seq<u8>>)
    ensures
        classified(token_like_text(TokenLikeView::Id(id)), address) == TokenLikeView::Id(id),
{
    lemma_parse_of_decimal_text(id);
}

/// Putting a descriptor in lower case changes nothing but a symbol, and a
/// descriptor that names the first token by identifier or address names it
/// in lower case too.
pub proof fn lemma_lowercase_keeps_ids_and_addresses(token: TokenLikeView)
    requires
        !(token is Symbol),
    ensures
        lowercased(token) == token,
        names_rbtc(lowercased(token)) == names_rbtc(token),
{
}

fn is_letter(c: char, small: char) -> (same: bool)
    requires
        97 <= small as u32 <= 122,
    ensures
        same == (ascii_lower(c) == small),
{
    let code: u32 = c as u32;
    let want: u32 = small as u32;
    code == want || code + 32 == want
}

impl TokenLike {
    /// The descriptor for `value`, given what the L1 address parser made of
    /// `value` without its `0x`.
    pub fn classify(value: &str, address: Option<Address>) -> (token: TokenLike)
        ensures
            token@ == classified(
                value@,
                match address {
                    Some(a) => Some(a@),
                    None => None,
                },
            ),
    {
        match parse_u32(value) {
            Some(id) => TokenLike::Id(TokenId(id)),
            None => match address {
                Some(a) => TokenLike::Address(a),
                None => TokenLike::Symbol(String::from_str(value)),
            },
        }
    }

    /// Reads a descriptor: a number is an identifier; failing that, what the
    /// L1 address parser takes, with or without `0x` in front, is an address;
    /// anything else is a symbol.
    pub fn parse(value: &str) -> (token: TokenLike)
        ensures
            token@ == classified(value@, h160_from_text(without_0x(value@))),
    {
        let address: Option<Address> = address_from_text(strip_0x(value));
        Self::classify(value, address)
    }

    /// Whether the descriptor names the rollup's first token: identifier zero,
    /// the zero address, or the symbol `RBTC` in any case.
    pub fn is_rbtc(&self) -> (yes: bool)
        ensures
            yes == names_rbtc(self@),
    {
        match self {
            TokenLike::Symbol(symbol) => {
                let s: &str = symbol.as_str();
                s.unicode_len() == 4 && is_letter(s.get_char(0), 'r') && is_letter(
                    s.get_char(1),
                    'b',
                ) && is_letter(s.get_char(2), 't') && is_letter(s.get_char(3), 'c')
            },
            TokenLike::Address(address) => address.is_zero(),
            TokenLike::Id(id) => id.0 == RBTC_TOKEN_ID,
        }
    }

    /// The descriptor with its symbol in lower case, as the keys of a cache
    /// are compared.
    pub fn to_lowercase(&self) -> (lower: TokenLike)
        ensures
            lower@ == lowercased(self@),
    {
        match self {
            TokenLike::Id(id) => TokenLike::Id(*id),
            TokenLike::Address(address) => TokenLike::Address(*address),
            TokenLike::Symbol(symbol) => TokenLike::Symbol(lowercase(symbol.as_str())),
        }
    }

    /// The text that the descriptor prints as.
    pub fn to_text(&self) -> (text: String)
        ensures
            text@ == token_like_text(self@),
    {
        match self {
            TokenLike::Id(id) => u64_to_decimal(id.0 as u64),
            TokenLike::Address(address) => bytes_to_hex(address.0.as_slice()),
            TokenLike::Symbol(symbol) => symbol.clone(),
        }
    }

    /// The descriptor that names a token by its identifier.
    pub fn from_id(id: TokenId) -> (token: TokenLike)
        ensures
            token@ == TokenLikeView::Id(id.0),
    {
        TokenLike::Id(id)
    }

    /// The descriptor that names a token by its address.
    pub fn from_address(address: Address) -> (token: TokenLike)
        ensures
            token@ == TokenLikeView::Address(address@),
    {
        TokenLike::Address(address)
    }

    /// The descriptor that names a token by its symbol.
    pub fn from_symbol(symbol: &str) -> (token: TokenLike)
        ensures
            token@ == TokenLikeView::Symbol(symbol@),
    {
        TokenLike::Symbol(String::from_str(symbol))
    }
}

/// The kind of contract behind a token.
#[derive(Debug, Clone, Copy, PartialEq, Eq, Structural)]
pub enum TokenKind {
    /// A fungible token behind an ERC-20 contract.
    ERC20,
    /// A token that exists once.
    NFT,
    /// A token whose kind is not known.
    Absent,
}

impl Default for TokenKind {
    fn default() -> (kind: TokenKind)
        ensures
            kind == TokenKind::ERC20,
    {
        TokenKind::ERC20
    }
}

/// A token that the rollup supports.
#[derive(Debug, Clone, PartialEq)]
pub struct Token {
    /// The identifier that signatures and serialised transactions carry.
    pub id: TokenId,
    /// The address of the token's contract; the zero address for "RBTC".
    pub address: Address,
    /// The token's symbol, such as "RBTC" or "RDOC".
    pub symbol: String,
    /// The number of decimal places of one token.
    pub decimals: u8,
    /// The kind of contract behind the token.
    pub kind: TokenKind,
    /// Whether the token is an NFT.
    pub is_nft: bool,
}

impl Token {
    /// A token of the given kind; it counts as an NFT exactly when its kind says so.
    pub fn new(id: TokenId, address: Address, symbol: &str, decimals: u8, kind: TokenKind) -> (token:
        Token)
        ensures
            token.id == id,
            token.address == address,
            token.symbol@ == symbol@,
            token.decimals == decimals,
            token.kind == kind,
            token.is_nft == (kind == TokenKind::NFT),
    {
        let is_nft: bool = match kind {
            TokenKind::NFT => true,
            _ => false,
        };
        Token { id, address, symbol: String::from_str(symbol), decimals, kind, is_nft }
    }

    /// An NFT: a token without decimals, at the zero address.
    pub fn new_nft(id: TokenId, symbol: &str) -> (token: Token)
        ensures
            token.id == id,
            token.address@ == Seq::new(20, |i: int| 0u8),
            token.symbol@ == symbol@,
            token.decimals == 0,
            token.kind == TokenKind::NFT,
            token.is_nft,
    {
        Token {
            id,
            address: Address::zero(),
            symbol: String::from_str(symbol),
            decimals: 0,
            kind: TokenKind::NFT,
            is_nft: true,
        }
    }
}

impl Default for Token {
    fn default() -> (token: Token)
        ensures
            token.id == TokenId(0),
            token.address@ == Seq::new(20, |i: int| 0u8),
            token.symbol@ == Seq::<char>::empty(),
            token.decimals == 0,
            token.kind == TokenKind::ERC20,
            !token.is_nft,
    {
        Token {
            id: TokenId(0),
            address: Address::zero(),
            symbol: String::new(),
            decimals: 0,
            kind: TokenKind::ERC20,
            is_nft: false,
        }
    }
}

/// An ERC-20 token as the genesis token list names it.
#[derive(Debug, Clone)]
pub struct TokenInfo {
    /// The address of the token's contract.
    pub address: Address,
    /// The number of decimal places of one token.
    pub decimals: u8,
    /// The token's symbol.
    pub symbol: String,
}

impl TokenInfo {
    pub fn new(address: Address, symbol: &str, decimals: u8) -> (info: TokenInfo)
        ensures
            info.address == address,
            info.symbol@ == symbol@,
            info.decimals == decimals,
    {
        TokenInfo { address, symbol: String::from_str(symbol), decimals }
    }
}

/// What the library reads of an L1 log.
#[derive(Debug, Clone, PartialEq, Eq)]
pub struct EventLog {
    /// The contract that emitted the log.
    pub address: Address,
    /// The indexed values of the log; the first is the event's signature.
    pub topics: Vec<H256>,
    /// The values of the log that are not indexed.
    pub data: Vec<u8>,
    /// The L1 block of the log; `None` while the log is pending.
    pub block_number: Option<u64>,
    /// The hash of the transaction that emitted the log.
    pub transaction_hash: Option<H256>,
    /// The place of that transaction in its block.
    pub transaction_index: Option<u64>,
    /// The place of the log in its block.
    pub log_index: Option<u64>,
}

/// Why a log is no token registration.
#[derive(Debug)]
pub enum NewTokenEventParseError {
    /// The log has not the shape of a token registration.
    ParseError(EventLog),
}

/// A token that was registered through the governance contract.
#[derive(Debug, Clone)]
pub struct NewTokenEvent {
    /// The L1 block of the registration.
    pub eth_block_number: u64,
    /// The address of the token's contract.
    pub address: Address,
    /// The identifier that the token was given.
    pub id: TokenId,
}

/// Whether a log has the shape of a token registration: the event's
/// signature and its two indexed values, in a block.
pub open spec fn is_new_token_log(event: EventLog) -> bool {
    event.topics@.len() == 3 && event.block_number is Some
}

impl NewTokenEvent {
    /// Whether the identifier in a token registration fits 32 bits, as
    /// `try_from` needs it to.
    pub fn has_valid_id(event: &EventLog) -> (valid: bool)
        ensures
            valid == (is_new_token_log(*event) ==> be_value(event.topics@[2]@) <= u32::MAX),
    {
        if event.topics.len() != 3 || event.block_number.is_none() {
            return true;
        }
        event.topics[2].to_u32().is_some()
    }

    /// Reads a token registration from a log of the governance contract: the
    /// address from the low 20 bytes of the first indexed value, the
    /// identifier from the second.
    pub fn try_from(event: EventLog) -> (parsed: Result<NewTokenEvent, NewTokenEventParseError>)
        requires
            is_new_token_log(event) ==> be_value(event.topics@[2]@) <= u32::MAX,
        ensures
            match parsed {
                Ok(token) => {
                    &&& is_new_token_log(event)
                    &&& event.block_number == Some(token.eth_block_number)
                    &&& token.address@ == event.topics@[1]@.subrange(12, 32)
                    &&& token.id.0 as nat == be_value(event.topics@[2]@)
                },
                Err(NewTokenEventParseError::ParseError(log)) => {
                    &&& !is_new_token_log(event)
                    &&& log == event
                },
            },
    {
        if event.topics.len() != 3 {
            return Err(NewTokenEventParseError::ParseError(event));
        }
        let eth_block_number: u64 = match event.block_number {
            Some(block_number) => block_number,
            None => {
                return Err(NewTokenEventParseError::ParseError(event));
            },
        };
        let id: u32 = match event.topics[2].to_u32() {
            Some(id) => id,
            None => {
                assert(false);
                0
            },
        };
        Ok(NewTokenEvent { eth_block_number, address: event.topics[1].low_address(), id: TokenId(id) })
    }
}

/// The way in which a change of public key is authorised.
#[derive(Debug, Clone, Copy, PartialEq, Eq, Structural, Hash)]
pub enum ChangePubKeyType {
    Onchain,
    ECDSA,
    CREATE2,
}

/// How a request names the kind of public key change it asks the fee for.
#[derive(Debug, Clone, Copy, PartialEq, Eq, Structural, Hash)]
pub enum ChangePubKeyFeeTypeArg {
    /// The form of the contracts before their fourth version.
    PreContracts4Version { onchain_pubkey_auth: bool },
    /// The form of the contracts from their fourth version on.
    ContractsV4Version(ChangePubKeyType),
}

/// The kinds of transaction fee in the rollup.
#[derive(Debug, Clone, Copy, PartialEq, Eq, Structural, Hash)]
pub enum TxFeeTypes {
    /// Fee for a `WithdrawNFT` transaction.
    WithdrawNFT,
    /// Fee for a `WithdrawNFT` that is to be processed fast.
    FastWithdrawNFT,
    /// Fee for a `Withdraw` or `ForcedExit` transaction.
    Withdraw,
    /// Fee for a `Withdraw` that is to be processed fast.
    FastWithdraw,
    /// Fee for a `Transfer`.
    Transfer,
    /// Fee for a `ChangePubKey`.
    ChangePubKey(ChangePubKeyFeeTypeArg),
    /// Fee for a `Swap`.
    Swap,
    /// Fee for a `MintNFT`.
    MintNFT,
}

/// An NFT that the rollup supports.
#[derive(Debug, Clone, PartialEq)]
pub struct NFT {
    /// The identifier that signatures and serialised transactions carry.
    pub id: TokenId,
    /// The number that makes the token's address unique.
    pub serial_id: u32,
    /// The address of the account that minted the token.
    pub creator_address: Address,
    /// The identifier of the account that minted the token.
    pub creator_id: AccountId,
    /// The token's address in the rollup.
    pub address: Address,
    /// The token's symbol.
    pub symbol: String,
    /// The hash of the token's content.
    pub content_hash: H256,
}

/// The symbol of an NFT that was given none: `NFT-` and the identifier.
pub open spec fn default_nft_symbol(id: u32) -> Seq<char> {
    seq!['N', 'F', 'T', '-'] + decimal_text(id as nat)
}

impl NFT {
    /// An NFT; where no symbol is given, it is `NFT-` and the identifier.
    pub fn new(
        token_id: TokenId,
        serial_id: u32,
        creator_id: AccountId,
        creator_address: Address,
        address: Address,
        symbol: Option<String>,
        content_hash: H256,
    ) -> (nft: NFT)
        ensures
            nft.id == token_id,
            nft.serial_id == serial_id,
            nft.creator_id == creator_id,
            nft.creator_address == creator_address,
            nft.address == address,
            nft.content_hash == content_hash,
            nft.symbol@ == match symbol {
                Some(s) => s@,
                None => default_nft_symbol(token_id.0),
            },
    {
        let symbol: String = match symbol {
            Some(s) => s,
            None => {
                proof {
                    reveal_strlit("NFT-");
                }
                let digits: String = u64_to_decimal(token_id.0 as u64);
                let named: String = String::from_str("NFT-").concat(digits.as_str());
                assert(named@ =~= default_nft_symbol(token_id.0));
                named
            },
        };
        NFT { id: token_id, serial_id, creator_address, creator_id, address, symbol, content_hash }
    }
}

/// A number that is no status of a prover job.
#[derive(Debug, Clone, Copy, PartialEq, Eq, Structural)]
pub struct IncorrectProverJobStatus(pub i32);

impl IncorrectProverJobStatus {
    /// The text of the error.
    pub open spec fn message_text(self) -> Seq<char> {
        "Incorrect ProverJobStatus number: "@ + signed_decimal_text(self.0 as int)
    }

    /// The text of the error.
    pub fn message(&self) -> (text: String)
        ensures
            text@ == self.message_text(),
    {
        let digits: String = i32_to_decimal(self.0);
        String::from_str("Incorrect ProverJobStatus number: ").concat(digits.as_str())
    }
}

} // verus!
