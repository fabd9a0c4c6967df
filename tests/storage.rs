use fungible_token::{
    AccountId, AccountLedger, Contract, ContractError, Refund, StorageBalance,
    StorageBalanceBounds,
};

const UNIT: u64 = 125;
const PRICE: u128 = 10_000_000_000_000_000_000;
const FEE: u128 = 1_250_000_000_000_000_000_000;

fn id(s: &str) -> AccountId {
    AccountId::new_unchecked(s.to_string())
}

fn contract() -> Contract {
    Contract::from_parts(AccountLedger::new(), UNIT)
}

#[test]
fn bounds_are_unit_times_price_and_equal() {
    let c = contract();
    assert_eq!(
        c.storage_balance_bounds(PRICE),
        StorageBalanceBounds { min: FEE, max: Some(FEE) }
    );
    let b = c.storage_balance_bounds(3);
    assert_eq!(b.min, 375);
    assert_eq!(b.max, Some(b.min));
    let free = c.storage_balance_bounds(0);
    assert_eq!(free, StorageBalanceBounds { min: 0, max: Some(0) });
}

#[test]
fn exact_fee_registers_without_refund() {
    let mut c = contract();
    let alice = id("alice.near");
    let out = c.storage_deposit(None, None, alice.clone(), FEE, PRICE).unwrap();
    assert_eq!(out.refund, None);
    assert_eq!(out.balance, StorageBalance { total: FEE, available: 0 });
    assert_eq!(
        c.storage_balance_of(alice.clone(), PRICE),
        Some(StorageBalance { total: FEE, available: 0 })
    );
    assert_eq!(c.internal_unwrap_balance_of(&alice), Ok(0));
}

#[test]
fn overpayment_refunds_the_excess_to_the_caller() {
    let mut c = contract();
    let payer = id("payer.near");
    let bob = id("bob.near");
    let out = c
        .storage_deposit(Some(bob.clone()), Some(true), payer.clone(), FEE + 7, PRICE)
        .unwrap();
    assert_eq!(out.refund, Some(Refund { receiver_id: payer.clone(), amount: 7 }));
    assert_eq!(out.balance, StorageBalance { total: FEE, available: 0 });
    assert_eq!(
        c.storage_balance_of(bob, PRICE),
        Some(StorageBalance { total: FEE, available: 0 })
    );
    assert_eq!(c.storage_balance_of(payer, PRICE), None);
}

#[test]
fn underpayment_is_rejected() {
    let mut c = contract();
    let carol = id("carol.near");
    assert_eq!(
        c.storage_deposit(None, None, carol.clone(), FEE - 1, PRICE),
        Err(ContractError::InsufficientDeposit)
    );
    assert_eq!(c.storage_balance_of(carol, PRICE), None);
    assert_eq!(c.accounts().len(), 0);
}

#[test]
fn redeposit_refunds_everything() {
    let mut c = contract();
    let dave = id("dave.near");
    c.storage_deposit(None, None, dave.clone(), FEE, PRICE).unwrap();
    c.internal_deposit(&dave, 11).unwrap();
    let payer = id("payer.near");
    let out = c
        .storage_deposit(Some(dave.clone()), None, payer.clone(), 500, PRICE)
        .unwrap();
    assert_eq!(out.refund, Some(Refund { receiver_id: payer, amount: 500 }));
    assert_eq!(out.balance, StorageBalance { total: FEE, available: 0 });
    assert_eq!(c.internal_unwrap_balance_of(&dave), Ok(11));
    assert_eq!(c.accounts().len(), 1);
}

#[test]
fn redeposit_of_zero_issues_no_refund() {
    let mut c = contract();
    let dave = id("dave.near");
    c.storage_deposit(None, None, dave.clone(), FEE + 1, PRICE).unwrap();
    let out = c.storage_deposit(None, Some(false), dave.clone(), 0, PRICE).unwrap();
    assert_eq!(out.refund, None);
    assert_eq!(out.balance, StorageBalance { total: FEE, available: 0 });
    assert_eq!(c.accounts().len(), 1);
}

#[test]
fn balance_of_never_registered_is_absent() {
    let c = contract();
    assert_eq!(c.storage_balance_of(id("ghost.near"), PRICE), None);
}

#[test]
fn free_storage_registers_with_nothing_attached() {
    let mut c = contract();
    let eve = id("eve.near");
    let out = c.storage_deposit(None, None, eve.clone(), 0, 0).unwrap();
    assert_eq!(out.refund, None);
    assert_eq!(out.balance, StorageBalance { total: 0, available: 0 });
    assert_eq!(
        c.storage_balance_of(eve, 0),
        Some(StorageBalance { total: 0, available: 0 })
    );
}

#[test]
fn largest_fee_that_fits() {
    let c = Contract::from_parts(AccountLedger::new(), u64::MAX);
    let price = u128::MAX / (u64::MAX as u128);
    let b = c.storage_balance_bounds(price);
    assert_eq!(b.min, u64::MAX as u128 * price);
    assert_eq!(b.max, Some(b.min));
}
