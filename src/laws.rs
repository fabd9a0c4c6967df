//! Laws of the ledger and of the storage deposit protocol, stated over the
//! models that the operations' contracts use.
use vstd::prelude::*;

use crate::contract::{ContractError, ContractView};
use crate::internal::{deposit_spec, follows, register_spec, unwrap_balance_spec};
use crate::storage::{
    balance_of_spec, bounds_spec, refunded, storage_cost_fits, storage_deposit_follows,
    StorageBalance, StorageDepositOutcome,
};

verus! {

/// Registering an account twice: the second attempt fails with
/// `AlreadyRegistered`, and the balance it finds stays as it was.
pub proof fn lemma_no_double_registration(
    s0: ContractView,
    id: Seq<char>,
    s1: ContractView,
    r1: Result<(), ContractError>,
    s2: ContractView,
    r2: Result<(), ContractError>,
)
    requires
        follows(register_spec(s0, id), s0, s1, r1),
        follows(register_spec(s1, id), s1, s2, r2),
    ensures
        r2 == Err::<(), ContractError>(ContractError::AlreadyRegistered),
        unwrap_balance_spec(s2, id) == unwrap_balance_spec(s1, id),
        unwrap_balance_spec(s1, id) is Ok,
{
}

/// A deposit whose sum exceeds the largest balance fails with
/// `BalanceOverflow`, and the balance stays `b`.
pub proof fn lemma_overflow_rejected(
    s: ContractView,
    id: Seq<char>,
    amount: u128,
    after: ContractView,
    r: Result<(), ContractError>,
)
    requires
        s.accounts.contains_key(id),
        s.accounts[id] + amount > u128::MAX,
        follows(deposit_spec(s, id, amount), s, after, r),
    ensures
        r == Err::<(), ContractError>(ContractError::BalanceOverflow),
        unwrap_balance_spec(after, id) == Ok::<u128, ContractError>(s.accounts[id]),
{
}

/// A deposit to an account that is not registered fails with
/// `NotRegistered` and creates no entry.
pub proof fn lemma_unregistered_deposit_rejected(
    s: ContractView,
    id: Seq<char>,
    amount: u128,
    after: ContractView,
    r: Result<(), ContractError>,
)
    requires
        !s.accounts.contains_key(id),
        follows(deposit_spec(s, id, amount), s, after, r),
    ensures
        r == Err::<(), ContractError>(ContractError::NotRegistered),
        !after.accounts.contains_key(id),
{
}

/// A first deposit of exactly the fee `M` registers the account, issues no
/// refund, and the account's storage balance is then `{ total: M, available: 0 }`.
pub proof fn lemma_deposit_exact_fee(
    s: ContractView,
    target: Seq<char>,
    caller: Seq<char>,
    storage_byte_cost: u128,
    after: ContractView,
    r: Result<StorageDepositOutcome, ContractError>,
)
    requires
        storage_cost_fits(s, storage_byte_cost),
        !s.accounts.contains_key(target),
        storage_deposit_follows(
            s,
            target,
            caller,
            bounds_spec(s, storage_byte_cost).min,
            storage_byte_cost,
            after,
            r,
        ),
    ensures
        r matches Ok(out) && out.refund is None,
        after.accounts.contains_key(target),
        balance_of_spec(after, target, storage_byte_cost) == Some(
            StorageBalance { total: bounds_spec(s, storage_byte_cost).min, available: 0 },
        ),
{
}

/// A first deposit of the fee plus `k > 0` registers the account and
/// refunds exactly `k` to the caller; the storage balance is as with the
/// exact fee.
pub proof fn lemma_deposit_overpaid(
    s: ContractView,
    target: Seq<char>,
    caller: Seq<char>,
    storage_byte_cost: u128,
    k: u128,
    after: ContractView,
    r: Result<StorageDepositOutcome, ContractError>,
)
    requires
        storage_cost_fits(s, storage_byte_cost),
        !s.accounts.contains_key(target),
        k > 0,
        bounds_spec(s, storage_byte_cost).min + k <= u128::MAX,
        storage_deposit_follows(
            s,
            target,
            caller,
            (bounds_spec(s, storage_byte_cost).min + k) as u128,
            storage_byte_cost,
            after,
            r,
        ),
    ensures
        r matches Ok(out) && out.refund matches Some(t) && t.receiver_id@ == caller && t.amount
            == k,
        after.accounts.contains_key(target),
        balance_of_spec(after, target, storage_byte_cost) == Some(
            StorageBalance { total: bounds_spec(s, storage_byte_cost).min, available: 0 },
        ),
{
}

/// A first deposit of one less than the fee fails with
/// `InsufficientDeposit`, and the account stays without a storage balance.
pub proof fn lemma_deposit_underpaid(
    s: ContractView,
    target: Seq<char>,
    caller: Seq<char>,
    storage_byte_cost: u128,
    after: ContractView,
    r: Result<StorageDepositOutcome, ContractError>,
)
    requires
        storage_cost_fits(s, storage_byte_cost),
        !s.accounts.contains_key(target),
        bounds_spec(s, storage_byte_cost).min > 0,
        storage_deposit_follows(
            s,
            target,
            caller,
            (bounds_spec(s, storage_byte_cost).min - 1) as u128,
            storage_byte_cost,
            after,
            r,
        ),
    ensures
        r matches Err(e) && e == ContractError::InsufficientDeposit,
        balance_of_spec(after, target, storage_byte_cost) is None,
{
}

/// A deposit for an account already registered refunds the whole payment,
/// whatever it is, 0 included, and changes nothing.
pub proof fn lemma_redeposit_refunded(
    s: ContractView,
    target: Seq<char>,
    caller: Seq<char>,
    attached: u128,
    storage_byte_cost: u128,
    after: ContractView,
    r: Result<StorageDepositOutcome, ContractError>,
)
    requires
        storage_cost_fits(s, storage_byte_cost),
        s.accounts.contains_key(target),
        storage_deposit_follows(s, target, caller, attached, storage_byte_cost, after, r),
    ensures
        r matches Ok(out) && refunded(out.refund) == attached,
        after == s,
{
}

/// An account never registered has no storage balance: the result is
/// `None`, not an error.
pub proof fn lemma_absent_balance(s: ContractView, id: Seq<char>, storage_byte_cost: u128)
    requires
        !s.accounts.contains_key(id),
    ensures
        balance_of_spec(s, id, storage_byte_cost) is None,
{
}

} // verus!
