use vstd::prelude::*;

use crate::account::AccountId;
use crate::contract::{Contract, ContractError, ContractView};

verus! {

/// Registration: the account enters the ledger with balance 0.
pub open spec fn register_spec(s: ContractView, id: Seq<char>) -> Result<ContractView, ContractError> {
    if s.accounts.contains_key(id) {
        Err(ContractError::AlreadyRegistered)
    } else {
        Ok(ContractView { accounts: s.accounts.insert(id, 0), ..s })
    }
}

/// The balance of a registered account.
pub open spec fn unwrap_balance_spec(s: ContractView, id: Seq<char>) -> Result<u128, ContractError> {
    if s.accounts.contains_key(id) {
        Ok(s.accounts[id])
    } else {
        Err(ContractError::NotRegistered)
    }
}

/// A deposit: the balance grows by `amount`, if the sum fits in a `u128`.
pub open spec fn deposit_spec(s: ContractView, id: Seq<char>, amount: u128) -> Result<
    ContractView,
    ContractError,
> {
    match unwrap_balance_spec(s, id) {
        Err(e) => Err(e),
        Ok(b) => if b + amount > u128::MAX {
            Err(ContractError::BalanceOverflow)
        } else {
            Ok(ContractView { accounts: s.accounts.insert(id, (b + amount) as u128), ..s })
        },
    }
}

/// `after` is what a state-changing call left of `before`, given the outcome
/// `model` describes: the new state on success, no change on failure.
pub open spec fn follows(
    model: Result<ContractView, ContractError>,
    before: ContractView,
    after: ContractView,
    r: Result<(), ContractError>,
) -> bool {
    match model {
        Ok(s) => r == Ok::<(), ContractError>(()) && after == s,
        Err(e) => r == Err::<(), ContractError>(e) && after == before,
    }
}

impl Contract {
    /// Registers `account_id` with balance 0.
    pub fn internal_register_account(&mut self, account_id: &AccountId) -> (r: Result<(), ContractError>)
        requires
            old(self).wf(),
        ensures
            final(self).wf(),
            follows(register_spec(old(self)@, account_id@), old(self)@, final(self)@, r),
    {
        if self.accounts_contains(account_id) {
            return Err(ContractError::AlreadyRegistered);
        }
        self.accounts_insert(account_id, 0);
        Ok(())
    }

    /// The balance of `account_id`.
    pub fn internal_unwrap_balance_of(&self, account_id: &AccountId) -> (r: Result<u128, ContractError>)
        requires
            self.wf(),
        ensures
            r == unwrap_balance_spec(self@, account_id@),
    {
        match self.accounts().get(account_id) {
            Some(balance) => Ok(balance),
            None => Err(ContractError::NotRegistered),
        }
    }

    /// Adds `amount` to the balance of `account_id`.
    pub fn internal_deposit(&mut self, account_id: &AccountId, amount: u128) -> (r: Result<(), ContractError>)
        requires
            old(self).wf(),
        ensures
            final(self).wf(),
            follows(deposit_spec(old(self)@, account_id@, amount), old(self)@, final(self)@, r),
    {
        let balance = match self.internal_unwrap_balance_of(account_id) {
            Ok(balance) => balance,
            Err(e) => return Err(e),
        };
        match balance.checked_add(amount) {
            Some(new_balance) => {
                self.accounts_insert(account_id, new_balance);
                Ok(())
            },
            None => Err(ContractError::BalanceOverflow),
        }
    }
}

} // verus!
