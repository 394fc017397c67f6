//! The state that the rollup starts from: the fee account, the account that
//! holds the NFTs, and the token that stands for them.

use vstd::prelude::*;
use vstd::string::StringExecFns;
use std::collections::HashMap;
use crate::account::{Account, AccountUpdate, AccountView, accounts_view, replayed, replayed_all};
use crate::primitives::{AccountId, Address, BlockNumber, TokenId};
use crate::tokens::{Token, TokenKind};
use crate::tree_state::TreeState;

verus! {

broadcast use vstd::std_specs::hash::group_hash_axioms;

/// The number of decimal places of the token that stands for the NFTs.
pub const SPECIAL_TOKEN_DECIMALS: u8 = 18;

/// The identifiers that the network reserves for its NFTs.
#[derive(Clone, Copy, Debug, PartialEq, Eq)]
pub struct NftParams {
    /// The token that stands for the NFTs in the balance of their account.
    pub nft_token_id: TokenId,
    /// The account that holds the NFTs.
    pub nft_storage_account_id: AccountId,
    /// The address of the account that holds the NFTs.
    pub nft_storage_account_address: Address,
    /// The smallest identifier that an NFT can have.
    pub min_nft_token_id: u32,
}

/// What genesis writes to storage, and the tree it leaves.
#[derive(Debug, Clone, PartialEq)]
pub struct GenesisState {
    /// The L1 block from which events are watched.
    pub last_watched_eth_block_number: u64,
    /// The token that stands for the NFTs.
    pub special_token: Token,
    /// The journal of the accounts that genesis creates.
    pub account_updates: Vec<(AccountId, AccountUpdate)>,
    /// The tree at block zero.
    pub tree_state: TreeState,
}

/// The symbol of the token that stands for the NFTs.
pub open spec fn special_token_symbol() -> Seq<char> {
    "SPECIAL"@
}

/// Whether `token` is the token that stands for the NFTs.
pub open spec fn is_special_token(token: Token, params: NftParams) -> bool {
    &&& token.id == params.nft_token_id
    &&& token.address == params.nft_storage_account_address
    &&& token.symbol@ == special_token_symbol()
    &&& token.decimals == SPECIAL_TOKEN_DECIMALS
    &&& token.kind == TokenKind::NFT
    &&& token.is_nft
}

/// Whether `account` is the account that holds the NFTs as genesis leaves it:
/// fresh, but for a balance of the NFT token that marks where the
/// identifiers of NFTs start.
pub open spec fn is_nft_storage_account(account: Account, params: NftParams) -> bool {
    &&& account.address == params.nft_storage_account_address
    &&& account.nonce == 0
    &&& account.pub_key_hash@ == Seq::new(20, |i: int| 0u8)
    &&& account.balances@ == Map::<u32, u128>::empty().insert(
        params.nft_token_id.0,
        params.min_nft_token_id as u128,
    )
}

/// The journal of genesis: the fee account is created, then the account that
/// holds the NFTs, then that account is given its balance.
pub open spec fn genesis_journal(fee_account: Account, params: NftParams) -> Seq<
    (AccountId, AccountUpdate),
> {
    seq![
        (
            AccountId(0),
            AccountUpdate::Create { address: fee_account.address, nonce: fee_account.nonce },
        ),
        (
            params.nft_storage_account_id,
            AccountUpdate::Create { address: params.nft_storage_account_address, nonce: 0 },
        ),
        (
            params.nft_storage_account_id,
            AccountUpdate::UpdateBalance {
                old_nonce: 0,
                new_nonce: 0,
                balance_update: (params.nft_token_id, 0, params.min_nft_token_id as u128),
            },
        ),
    ]
}

/// Builds the genesis state: the fee account under identifier zero, the
/// account that holds the NFTs under its reserved identifier, the tree at
/// block zero with no priority operation processed, and the token that
/// stands for the NFTs. The caller saves, in one database transaction, the
/// empty events state at the genesis L1 block, the special token and the
/// journal.
pub fn build_genesis_state(
    genesis_eth_block_number: u64,
    genesis_fee_account: Account,
    params: NftParams,
) -> (genesis: GenesisState)
    ensures
        genesis.last_watched_eth_block_number == genesis_eth_block_number,
        is_special_token(genesis.special_token, params),
        genesis.account_updates@ == genesis_journal(genesis_fee_account, params),
        genesis.tree_state.block_number == BlockNumber(0),
        genesis.tree_state.last_fee_account == AccountId(0),
        genesis.tree_state.current_unprocessed_priority_op == 0,
        genesis.tree_state.accounts@.dom() == set![0u32, params.nft_storage_account_id.0],
        is_nft_storage_account(
            genesis.tree_state.accounts@[params.nft_storage_account_id.0],
            params,
        ),
        params.nft_storage_account_id.0 != 0 ==> genesis.tree_state.accounts@[0]
            == genesis_fee_account,
{
    let special_token = Token::new(
        params.nft_token_id,
        params.nft_storage_account_address,
        "SPECIAL",
        SPECIAL_TOKEN_DECIMALS,
        TokenKind::NFT,
    );

    let mut account_updates: Vec<(AccountId, AccountUpdate)> = Vec::with_capacity(3);
    let mut account_map: HashMap<u32, Account> = HashMap::new();

    account_updates.push(
        (
            AccountId(0),
            AccountUpdate::Create {
                address: genesis_fee_account.address,
                nonce: genesis_fee_account.nonce,
            },
        ),
    );
    account_map.insert(0, genesis_fee_account);

    let (mut special_account, special_account_create) = Account::create_account(
        params.nft_storage_account_id,
        params.nft_storage_account_address,
    );
    special_account.set_balance(params.nft_token_id, params.min_nft_token_id as u128);

    account_updates.push(special_account_create[0]);
    account_updates.push(
        (
            params.nft_storage_account_id,
            AccountUpdate::UpdateBalance {
                old_nonce: special_account.nonce,
                new_nonce: special_account.nonce,
                balance_update: (params.nft_token_id, 0, params.min_nft_token_id as u128),
            },
        ),
    );
    account_map.insert(params.nft_storage_account_id.0, special_account);

    let tree_state = TreeState::load(BlockNumber(0), account_map, 0, AccountId(0));
    assert(account_updates@ =~= genesis_journal(genesis_fee_account, params));
    assert(tree_state.accounts@.dom() =~= set![0u32, params.nft_storage_account_id.0]);
    GenesisState {
        last_watched_eth_block_number: genesis_eth_block_number,
        special_token,
        account_updates,
        tree_state,
    }
}

/// The genesis journal tells how the genesis accounts came to be: replayed
/// on no accounts at all, it gives the accounts of the genesis tree. This
/// holds where the fee account is fresh but for its nonce, and the account
/// that holds the NFTs is not the fee account.
pub proof fn lemma_genesis_journal_replays(
    fee_account: Account,
    params: NftParams,
    accounts: Map<u32, Account>,
)
    requires
        params.nft_storage_account_id.0 != 0,
        fee_account.pub_key_hash@ == Seq::new(20, |i: int| 0u8),
        fee_account.balances@ == Map::<u32, u128>::empty(),
        accounts.dom() == set![0u32, params.nft_storage_account_id.0],
        accounts[0] == fee_account,
        is_nft_storage_account(accounts[params.nft_storage_account_id.0], params),
    ensures
        replayed_all(Map::empty(), genesis_journal(fee_account, params)) == Some(
            accounts_view(accounts),
        ),
{
    let journal = genesis_journal(fee_account, params);
    let nft = params.nft_storage_account_id;
    let none: Map<u32, AccountView> = Map::empty();
    let j1 = journal.drop_last();
    let j0 = j1.drop_last();
    assert(j0.drop_last() =~= Seq::<(AccountId, AccountUpdate)>::empty());
    assert(j0.last() == journal[0]);
    assert(j1.last() == journal[1]);
    assert(journal.last() == journal[2]);
    assert(replayed_all(none, j0.drop_last()) == Some(none));
    let m0 = replayed(none, journal[0].0, journal[0].1);
    assert(replayed_all(none, j0) == Some(m0));
    let m1 = replayed(m0, journal[1].0, journal[1].1);
    assert(!m0.contains_key(nft.0));
    assert(replayed_all(none, j1) == Some(m1));
    assert(m1.contains_key(nft.0));
    assert(m1[nft.0].balances =~= Map::<u32, u128>::empty());
    let m2 = replayed(m1, journal[2].0, journal[2].1);
    assert(replayed_all(none, journal) == Some(m2));
    assert(m2 =~= accounts_view(accounts));
}

} // verus!
