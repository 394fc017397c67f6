//! Accounts of the rollup and the journal of changes to them.

use vstd::prelude::*;
use std::collections::HashMap;
use crate::primitives::{AccountId, Address, TokenId};

verus! {

broadcast use vstd::std_specs::hash::group_hash_axioms;

/// An account of the rollup. Balances are kept by token identifier; a token
/// without an entry has balance zero.
#[derive(Debug, Clone, PartialEq, Eq)]
pub struct Account {
    /// The L1 address that owns the account.
    pub address: Address,
    /// The number of transactions that the account has authorised.
    pub nonce: u32,
    /// The hash of the public key that signs for the account.
    pub pub_key_hash: [u8; 20],
    /// The balances of the account, by token identifier.
    pub balances: HashMap<u32, u128>,
}

/// One entry of the journal of changes to the accounts.
#[derive(Debug, Clone, Copy, PartialEq, Eq)]
pub enum AccountUpdate {
    /// The account was created.
    Create { address: Address, nonce: u32 },
    /// A balance of the account changed: the token, its balance before and after.
    UpdateBalance { old_nonce: u32, new_nonce: u32, balance_update: (TokenId, u128, u128) },
}

/// What an account holds.
pub struct AccountView {
    pub address: Seq<u8>,
    pub nonce: u32,
    pub pub_key_hash: Seq<u8>,
    pub balances: Map<u32, u128>,
}

impl View for Account {
    type V = AccountView;

    open spec fn view(&self) -> AccountView {
        AccountView {
            address: self.address@,
            nonce: self.nonce,
            pub_key_hash: self.pub_key_hash@,
            balances: self.balances@,
        }
    }
}

/// What each of `accounts` holds.
pub open spec fn accounts_view(accounts: Map<u32, Account>) -> Map<u32, AccountView> {
    accounts.map_values(|a: Account| a@)
}

/// Why an entry of the journal cannot be replayed.
#[derive(Debug, Clone, Copy, PartialEq, Eq, Structural)]
pub enum JournalError {
    /// The entry creates an account that exists.
    AccountExists { id: AccountId },
    /// The entry changes an account that does not exist.
    AccountMissing { id: AccountId },
    /// The entry starts from another nonce than the account has.
    NonceMismatch { id: AccountId, journal_nonce: u32, account_nonce: u32 },
    /// The entry starts from another balance than the account has.
    BalanceMismatch { id: AccountId, token: TokenId, journal_balance: u128, account_balance: u128 },
}

/// The balance of `token` in `balances`; zero where there is no entry.
pub open spec fn balance_in(balances: Map<u32, u128>, token: u32) -> u128 {
    if balances.contains_key(token) {
        balances[token]
    } else {
        0
    }
}

/// Why `update` cannot be replayed on `accounts`, if it cannot.
pub open spec fn journal_refusal(
    accounts: Map<u32, AccountView>,
    id: AccountId,
    update: AccountUpdate,
) -> Option<JournalError> {
    match update {
        AccountUpdate::Create { .. } => if accounts.contains_key(id.0) {
            Some(JournalError::AccountExists { id })
        } else {
            None
        },
        AccountUpdate::UpdateBalance { old_nonce, new_nonce, balance_update } => {
            if !accounts.contains_key(id.0) {
                Some(JournalError::AccountMissing { id })
            } else if accounts[id.0].nonce != old_nonce {
                Some(
                    JournalError::NonceMismatch {
                        id,
                        journal_nonce: old_nonce,
                        account_nonce: accounts[id.0].nonce,
                    },
                )
            } else if balance_in(accounts[id.0].balances, balance_update.0.0) != balance_update.1 {
                Some(
                    JournalError::BalanceMismatch {
                        id,
                        token: balance_update.0,
                        journal_balance: balance_update.1,
                        account_balance: balance_in(accounts[id.0].balances, balance_update.0.0),
                    },
                )
            } else {
                None
            }
        },
    }
}

/// The accounts after `update` is replayed on `accounts`: a creation adds a
/// fresh account with the given address and nonce; a balance update sets the
/// balance of its token and the nonce.
pub open spec fn replayed(
    accounts: Map<u32, AccountView>,
    id: AccountId,
    update: AccountUpdate,
) -> Map<u32, AccountView> {
    match update {
        AccountUpdate::Create { address, nonce } => accounts.insert(
            id.0,
            AccountView {
                address: address@,
                nonce,
                pub_key_hash: Seq::new(20, |i: int| 0u8),
                balances: Map::empty(),
            },
        ),
        AccountUpdate::UpdateBalance { old_nonce, new_nonce, balance_update } => accounts.insert(
            id.0,
            AccountView {
                nonce: new_nonce,
                balances: accounts[id.0].balances.insert(balance_update.0.0, balance_update.2),
                ..accounts[id.0]
            },
        ),
    }
}

/// The accounts after every entry of `journal` is replayed on `accounts`, in
/// order, or `None` where an entry cannot be replayed.
pub open spec fn replayed_all(
    accounts: Map<u32, AccountView>,
    journal: Seq<(AccountId, AccountUpdate)>,
) -> Option<Map<u32, AccountView>>
    decreases journal.len(),
{
    if journal.len() == 0 {
        Some(accounts)
    } else {
        match replayed_all(accounts, journal.drop_last()) {
            None => None,
            Some(before) => if journal_refusal(before, journal.last().0, journal.last().1) is None {
                Some(replayed(before, journal.last().0, journal.last().1))
            } else {
                None
            },
        }
    }
}

/// Replays one entry of the journal on `accounts`. An entry that does not
/// fit the accounts is refused, and the accounts stay as they are.
pub fn apply_account_update(
    accounts: &mut HashMap<u32, Account>,
    id: AccountId,
    update: AccountUpdate,
) -> (applied: Result<(), JournalError>)
    ensures
        match applied {
            Ok(()) => {
                &&& journal_refusal(accounts_view(old(accounts)@), id, update) is None
                &&& accounts_view(final(accounts)@) == replayed(
                    accounts_view(old(accounts)@),
                    id,
                    update,
                )
            },
            Err(e) => {
                &&& journal_refusal(accounts_view(old(accounts)@), id, update) == Some(e)
                &&& final(accounts)@ == old(accounts)@
            },
        },
{
    match update {
        AccountUpdate::Create { address, nonce } => {
            if accounts.contains_key(&id.0) {
                return Err(JournalError::AccountExists { id });
            }
            let mut account = Account::default_with_address(address);
            account.nonce = nonce;
            accounts.insert(id.0, account);
            assert(accounts_view(accounts@) =~= replayed(accounts_view(old(accounts)@), id, update));
            Ok(())
        },
        AccountUpdate::UpdateBalance { old_nonce, new_nonce, balance_update } => {
            let (found_nonce, found_balance): (u32, u128) = match accounts.get(&id.0) {
                None => {
                    return Err(JournalError::AccountMissing { id });
                },
                Some(account) => (account.nonce, account.get_balance(balance_update.0)),
            };
            if found_nonce != old_nonce {
                return Err(
                    JournalError::NonceMismatch {
                        id,
                        journal_nonce: old_nonce,
                        account_nonce: found_nonce,
                    },
                );
            }
            if found_balance != balance_update.1 {
                return Err(
                    JournalError::BalanceMismatch {
                        id,
                        token: balance_update.0,
                        journal_balance: balance_update.1,
                        account_balance: found_balance,
                    },
                );
            }
            let mut account: Account = match accounts.remove(&id.0) {
                Some(account) => account,
                None => {
                    assert(false);
                    Account::default_with_address(Address::zero())
                },
            };
            account.set_balance(balance_update.0, balance_update.2);
            account.nonce = new_nonce;
            accounts.insert(id.0, account);
            assert(accounts_view(accounts@) =~= replayed(accounts_view(old(accounts)@), id, update));
            Ok(())
        },
    }
}

/// Replays a journal on `accounts`, in order. The first entry that does not
/// fit ends the replay; the entries before it stay replayed, and the error
/// comes with the place of the refused entry.
pub fn apply_account_updates(
    accounts: &mut HashMap<u32, Account>,
    journal: &Vec<(AccountId, AccountUpdate)>,
) -> (applied: Result<(), (usize, JournalError)>)
    ensures
        match applied {
            Ok(()) => replayed_all(accounts_view(old(accounts)@), journal@) == Some(
                accounts_view(final(accounts)@),
            ),
            Err((at, e)) => {
                &&& at < journal@.len()
                &&& replayed_all(accounts_view(old(accounts)@), journal@.subrange(0, at as int))
                    == Some(accounts_view(final(accounts)@))
                &&& journal_refusal(
                    accounts_view(final(accounts)@),
                    journal@[at as int].0,
                    journal@[at as int].1,
                ) == Some(e)
                &&& replayed_all(accounts_view(old(accounts)@), journal@.subrange(0, at + 1))
                    is None
            },
        },
{
    let mut i: usize = 0;
    assert(journal@.subrange(0, 0) =~= Seq::<(AccountId, AccountUpdate)>::empty());
    while i < journal.len()
        invariant
            i <= journal.len(),
            replayed_all(accounts_view(old(accounts)@), journal@.subrange(0, i as int)) == Some(
                accounts_view(accounts@),
            ),
        decreases journal.len() - i,
    {
        let (id, update): (AccountId, AccountUpdate) = journal[i];
        proof {
            let next = journal@.subrange(0, i + 1);
            assert(next.drop_last() =~= journal@.subrange(0, i as int));
            assert(next.last() == journal@[i as int]);
        }
        match apply_account_update(accounts, id, update) {
            Ok(()) => {},
            Err(e) => {
                return Err((i, e));
            },
        }
        i += 1;
    }
    assert(journal@.subrange(0, journal.len() as int) =~= journal@);
    Ok(())
}

/// Replaying a journal never removes an account: every account that was
/// there before is there after, and so is every account that an entry creates.
pub proof fn lemma_replay_keeps_accounts(
    accounts: Map<u32, AccountView>,
    journal: Seq<(AccountId, AccountUpdate)>,
    id: u32,
)
    requires
        replayed_all(accounts, journal) is Some,
        accounts.contains_key(id) || exists|i: int|
            0 <= i < journal.len() && (#[trigger] journal[i]).0.0 == id && journal[i].1 is Create,
    ensures
        replayed_all(accounts, journal)->0.contains_key(id),
    decreases journal.len(),
{
    if journal.len() > 0 {
        let front = journal.drop_last();
        let before = replayed_all(accounts, front)->0;
        if accounts.contains_key(id) {
            lemma_replay_keeps_accounts(accounts, front, id);
        } else {
            let i = choose|i: int|
                0 <= i < journal.len() && (#[trigger] journal[i]).0.0 == id && journal[i].1 is Create;
            if i < front.len() {
                assert(front[i] == journal[i]);
                lemma_replay_keeps_accounts(accounts, front, id);
            }
        }
    }
}

impl Account {
    /// The balance that the account holds of `token`.
    pub open spec fn balance_of(self, token: u32) -> u128 {
        if self.balances@.contains_key(token) {
            self.balances@[token]
        } else {
            0
        }
    }

    /// Whether the account is the fresh account of `address`: nothing signed,
    /// no key set, nothing held.
    pub open spec fn is_fresh(self, address: Address) -> bool {
        &&& self.address == address
        &&& self.nonce == 0
        &&& self.pub_key_hash@ == Seq::new(20, |i: int| 0u8)
        &&& self.balances@ == Map::<u32, u128>::empty()
    }

    /// The fresh account of `address`.
    pub fn default_with_address(address: Address) -> (account: Account)
        ensures
            account.is_fresh(address),
    {
        let account = Account {
            address,
            nonce: 0,
            pub_key_hash: [0u8; 20],
            balances: HashMap::new(),
        };
        assert(account.pub_key_hash@ =~= Seq::new(20, |i: int| 0u8));
        account
    }

    /// The fresh account of `address`, and the journal entry that records its
    /// creation under `id`.
    pub fn create_account(id: AccountId, address: Address) -> (created: (
        Account,
        Vec<(AccountId, AccountUpdate)>,
    ))
        ensures
            created.0.is_fresh(address),
            created.1@ == seq![(id, AccountUpdate::Create { address, nonce: 0 })],
    {
        let account = Account::default_with_address(address);
        let mut journal: Vec<(AccountId, AccountUpdate)> = Vec::new();
        journal.push((id, AccountUpdate::Create { address, nonce: account.nonce }));
        assert(journal@ =~= seq![(id, AccountUpdate::Create { address, nonce: 0 })]);
        (account, journal)
    }

    /// The balance that the account holds of `token`.
    pub fn get_balance(&self, token: TokenId) -> (amount: u128)
        ensures
            amount == self.balance_of(token.0),
    {
        match self.balances.get(&token.0) {
            Some(amount) => *amount,
            None => 0,
        }
    }

    /// Sets the balance that the account holds of `token`.
    pub fn set_balance(&mut self, token: TokenId, amount: u128)
        ensures
            final(self).balances@ == old(self).balances@.insert(token.0, amount),
            final(self).address == old(self).address,
            final(self).nonce == old(self).nonce,
            final(self).pub_key_hash == old(self).pub_key_hash,
    {
        self.balances.insert(token.0, amount);
    }
}

} // verus!
