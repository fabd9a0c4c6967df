use vstd::prelude::*;

use crate::account::{longest_account_id, repeated_a, AccountId, MAX_ACCOUNT_ID_LEN};
use crate::ledger::AccountLedger;

verus! {

/// Keys of the persistent collections.
#[derive(Clone, Copy, Debug, PartialEq, Eq, Structural)]
pub enum StorageKey {
    Accounts,
    Metadata,
}

/// Why a call on the ledger was rejected. A rejected call changes nothing.
#[derive(Clone, Copy, Debug, PartialEq, Eq, Structural)]
pub enum ContractError {
    /// The account already has a ledger entry.
    AlreadyRegistered,
    /// The account has no ledger entry.
    NotRegistered,
    /// The new balance would not fit in a `u128`.
    BalanceOverflow,
    /// The attached payment is below the registration fee.
    InsufficientDeposit,
}

/// What a contract holds, as mathematics.
pub struct ContractView {
    /// Registered accounts and their balances.
    pub accounts: Map<Seq<char>, u128>,
    /// Storage, in bytes, that the record of one account takes at most.
    pub bytes_for_longest_account_id: u64,
}

/// The ledger, and the storage cost of one account record, fixed when the
/// contract is created.
pub struct Contract {
    accounts: AccountLedger,
    bytes_for_longest_account_id: u64,
}

impl View for Contract {
    type V = ContractView;

    closed spec fn view(&self) -> ContractView {
        ContractView {
            accounts: self.accounts@,
            bytes_for_longest_account_id: self.bytes_for_longest_account_id,
        }
    }
}

/// The probe record used to measure the storage of one account.
pub open spec fn probe_id() -> Seq<char> {
    repeated_a(MAX_ACCOUNT_ID_LEN as nat)
}

impl Contract {
    pub closed spec fn wf(&self) -> bool {
        self.accounts.wf()
    }

    /// Creates a contract with no accounts and fixes its storage cost unit.
    ///
    /// The longest account identifier is inserted in the empty ledger with
    /// balance 0, `storage_usage` is read before and after the insertion,
    /// and the probe is removed again. The growth is the cost unit. Returns
    /// `None` if the measured usage went down.
    pub fn new<F: Fn(&AccountLedger) -> u64>(storage_usage: F) -> (r: Option<Contract>)
        requires
            forall|l: &AccountLedger| storage_usage.requires((l,)),
        ensures
            exists|empty: AccountLedger, probed: AccountLedger, before: u64, after: u64|
                {
                    &&& empty@ == Map::<Seq<char>, u128>::empty()
                    &&& probed@ == Map::<Seq<char>, u128>::empty().insert(probe_id(), 0)
                    &&& storage_usage.ensures((&empty,), before)
                    &&& storage_usage.ensures((&probed,), after)
                    &&& match r {
                        Some(c) => {
                            &&& before <= after
                            &&& c.wf()
                            &&& c@.accounts == Map::<Seq<char>, u128>::empty()
                            &&& c@.bytes_for_longest_account_id == after - before
                        },
                        None => after < before,
                    }
                },
    {
        let mut accounts = AccountLedger::new();
        let ghost empty = accounts;
        let before = storage_usage(&accounts);
        let probe = longest_account_id();
        accounts.insert(&probe, 0);
        let ghost probed = accounts;
        let after = storage_usage(&accounts);
        accounts.remove(&probe);
        assert(accounts@ =~= Map::<Seq<char>, u128>::empty());
        if after < before {
            return None;
        }
        Some(Contract { accounts, bytes_for_longest_account_id: after - before })
    }

    /// Rebuilds a contract from its persisted parts, keeping the cost unit it
    /// was created with.
    pub fn from_parts(accounts: AccountLedger, bytes_for_longest_account_id: u64) -> (r: Contract)
        requires
            accounts.wf(),
        ensures
            r.wf(),
            r@.accounts == accounts@,
            r@.bytes_for_longest_account_id == bytes_for_longest_account_id,
    {
        Contract { accounts, bytes_for_longest_account_id }
    }

    /// The registered accounts and their balances.
    pub fn accounts(&self) -> (r: &AccountLedger)
        requires
            self.wf(),
        ensures
            r.wf(),
            r@ == self@.accounts,
    {
        &self.accounts
    }

    pub(crate) fn accounts_contains(&self, id: &AccountId) -> (r: bool)
        requires
            self.wf(),
        ensures
            r == self@.accounts.contains_key(id@),
    {
        self.accounts.contains_key(id)
    }

    /// Sets a balance in the ledger; the cost unit stays.
    pub(crate) fn accounts_insert(&mut self, id: &AccountId, balance: u128)
        requires
            old(self).wf(),
        ensures
            final(self).wf(),
            final(self)@ == (ContractView {
                accounts: old(self)@.accounts.insert(id@, balance),
                ..old(self)@
            }),
    {
        self.accounts.insert(id, balance);
    }

    /// Storage, in bytes, that the record of one account takes at most.
    pub fn bytes_for_longest_account_id(&self) -> (r: u64)
        ensures
            r == self@.bytes_for_longest_account_id,
    {
        self.bytes_for_longest_account_id
    }
}

} // verus!
