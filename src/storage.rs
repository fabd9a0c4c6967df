use vstd::prelude::*;

use crate::account::AccountId;
use crate::contract::{Contract, ContractError, ContractView};
use crate::internal::register_spec;

verus! {

/// Storage staked by an account: `total` is what it paid, `available` the
/// part of it not yet used.
#[derive(Clone, Copy, Debug, PartialEq, Eq, Structural)]
pub struct StorageBalance {
    pub total: u128,
    pub available: u128,
}

/// The least and the most an account can stake. The fee is flat, so the two
/// are equal.
#[derive(Clone, Copy, Debug, PartialEq, Eq, Structural)]
pub struct StorageBalanceBounds {
    pub min: u128,
    pub max: Option<u128>,
}

/// A payment the host is asked to make to `receiver_id`.
#[derive(Clone, Debug, PartialEq, Eq)]
pub struct Refund {
    pub receiver_id: AccountId,
    pub amount: u128,
}

/// What a successful storage deposit returns: the account's storage balance
/// after the call, and the refund to pay, if any.
#[derive(Clone, Debug, PartialEq, Eq)]
pub struct StorageDepositOutcome {
    pub balance: StorageBalance,
    pub refund: Option<Refund>,
}

/// Fee for one account record: the cost unit times the price of a byte.
pub open spec fn storage_cost(s: ContractView, storage_byte_cost: u128) -> int {
    s.bytes_for_longest_account_id as int * storage_byte_cost as int
}

/// The fee is representable as a balance.
pub open spec fn storage_cost_fits(s: ContractView, storage_byte_cost: u128) -> bool {
    storage_cost(s, storage_byte_cost) <= u128::MAX
}

pub open spec fn bounds_spec(s: ContractView, storage_byte_cost: u128) -> StorageBalanceBounds {
    StorageBalanceBounds {
        min: storage_cost(s, storage_byte_cost) as u128,
        max: Some(storage_cost(s, storage_byte_cost) as u128),
    }
}

/// The storage balance of a registered account: the fee, all of it used.
pub open spec fn registered_balance(s: ContractView, storage_byte_cost: u128) -> StorageBalance {
    StorageBalance { total: storage_cost(s, storage_byte_cost) as u128, available: 0 }
}

pub open spec fn balance_of_spec(s: ContractView, id: Seq<char>, storage_byte_cost: u128) -> Option<
    StorageBalance,
> {
    if s.accounts.contains_key(id) {
        Some(registered_balance(s, storage_byte_cost))
    } else {
        None
    }
}

/// The account a deposit goes to: the one named, else the caller.
pub open spec fn deposit_target(account_id: Option<AccountId>, predecessor: AccountId) -> Seq<char> {
    match account_id {
        Some(a) => a@,
        None => predecessor@,
    }
}

/// A storage deposit of `attached` for `target`: the new state and the
/// amount to refund to the caller.
///
/// A registered target changes nothing and has the whole payment refunded.
/// An unregistered one is registered if the payment covers the fee, and the
/// rest is refunded; a smaller payment is rejected.
pub open spec fn storage_deposit_spec(
    s: ContractView,
    target: Seq<char>,
    attached: u128,
    storage_byte_cost: u128,
) -> Result<(ContractView, u128), ContractError> {
    if s.accounts.contains_key(target) {
        Ok((s, attached))
    } else if attached < storage_cost(s, storage_byte_cost) {
        Err(ContractError::InsufficientDeposit)
    } else {
        match register_spec(s, target) {
            Ok(t) => Ok((t, (attached - storage_cost(s, storage_byte_cost)) as u128)),
            Err(e) => Err(e),
        }
    }
}

/// The amount a refund pays; none pays 0.
pub open spec fn refunded(refund: Option<Refund>) -> u128 {
    match refund {
        Some(t) => t.amount,
        None => 0,
    }
}

/// `after` and `r` are what a storage deposit of `attached` for `target`,
/// made by `caller`, leaves and returns: on success the new state, the
/// storage balance of a registered account, and a refund of the amount
/// `storage_deposit_spec` gives, paid to the caller and issued only when
/// not 0; on failure the error, and no change.
pub open spec fn storage_deposit_follows(
    before: ContractView,
    target: Seq<char>,
    caller: Seq<char>,
    attached: u128,
    storage_byte_cost: u128,
    after: ContractView,
    r: Result<StorageDepositOutcome, ContractError>,
) -> bool {
    match storage_deposit_spec(before, target, attached, storage_byte_cost) {
        Ok((s, refund)) => {
            &&& after == s
            &&& r matches Ok(out)
            &&& out.balance == registered_balance(before, storage_byte_cost)
            &&& refunded(out.refund) == refund
            &&& out.refund matches Some(t) ==> t.receiver_id@ == caller && t.amount > 0
        },
        Err(e) => after == before && r == Err::<StorageDepositOutcome, ContractError>(e),
    }
}

impl Contract {
    /// Least and most an account can stake: both are the cost unit times the
    /// price of a byte of storage.
    pub fn storage_balance_bounds(&self, storage_byte_cost: u128) -> (r: StorageBalanceBounds)
        requires
            storage_cost_fits(self@, storage_byte_cost),
        ensures
            r == bounds_spec(self@, storage_byte_cost),
            r.max == Some(r.min),
    {
        let storage_cost = self.bytes_for_longest_account_id() as u128 * storage_byte_cost;
        StorageBalanceBounds { min: storage_cost, max: Some(storage_cost) }
    }

    /// The storage balance of `account_id`, or `None` if it is not registered.
    pub fn storage_balance_of(&self, account_id: AccountId, storage_byte_cost: u128) -> (r: Option<
        StorageBalance,
    >)
        requires
            self.wf(),
            storage_cost_fits(self@, storage_byte_cost),
        ensures
            r == balance_of_spec(self@, account_id@, storage_byte_cost),
    {
        if self.accounts_contains(&account_id) {
            Some(
                StorageBalance {
                    total: self.storage_balance_bounds(storage_byte_cost).min,
                    available: 0,
                },
            )
        } else {
            None
        }
    }

    /// Pays for the storage of `account_id`, or of the caller
    /// `predecessor_account_id` when it is `None`, with the payment
    /// `attached_deposit` made with the call.
    ///
    /// An account already registered is left as it is, and the whole
    /// payment is refunded to the caller. Otherwise the payment must cover
    /// the fee, `storage_balance_bounds(..).min`: the account is then
    /// registered and what exceeds the fee is refunded. A refund of 0 is not
    /// issued. The fee is flat, so `registration_only` changes nothing.
    #[allow(unused_variables)]
    pub fn storage_deposit(
        &mut self,
        account_id: Option<AccountId>,
        registration_only: Option<bool>,
        predecessor_account_id: AccountId,
        attached_deposit: u128,
        storage_byte_cost: u128,
    ) -> (r: Result<StorageDepositOutcome, ContractError>)
        requires
            old(self).wf(),
            storage_cost_fits(old(self)@, storage_byte_cost),
        ensures
            final(self).wf(),
            storage_deposit_follows(
                old(self)@,
                deposit_target(account_id, predecessor_account_id),
                predecessor_account_id@,
                attached_deposit,
                storage_byte_cost,
                final(self)@,
                r,
            ),
    {
        let account_id = match account_id {
            Some(a) => a,
            None => predecessor_account_id.clone(),
        };
        let refund_amount = if self.accounts_contains(&account_id) {
            attached_deposit
        } else {
            let storage_cost = self.storage_balance_bounds(storage_byte_cost).min;
            if attached_deposit < storage_cost {
                return Err(ContractError::InsufficientDeposit);
            }
            match self.internal_register_account(&account_id) {
                Ok(()) => {},
                Err(e) => return Err(e),
            }
            attached_deposit - storage_cost
        };
        let refund = if refund_amount > 0 {
            Some(Refund { receiver_id: predecessor_account_id, amount: refund_amount })
        } else {
            None
        };
        let balance = self.storage_balance_of(account_id, storage_byte_cost).unwrap();
        Ok(StorageDepositOutcome { balance, refund })
    }
}

} // verus!
