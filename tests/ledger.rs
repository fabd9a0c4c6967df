use fungible_token::{
    longest_account_id, AccountId, AccountLedger, Contract, ContractError, MAX_ACCOUNT_ID_LEN,
};

fn id(s: &str) -> AccountId {
    AccountId::new_unchecked(s.to_string())
}

/// Bytes a record of the ledger takes: a 40-byte record overhead, the
/// identifier with its 4-byte length prefix, and a 16-byte balance.
fn record_bytes(l: &AccountLedger) -> u64 {
    l.entries().iter().map(|(k, _)| 40 + 4 + k.as_str().len() as u64 + 16).sum()
}

fn contract_with_unit(unit: u64) -> Contract {
    Contract::from_parts(AccountLedger::new(), unit)
}

#[test]
fn longest_account_id_is_max_length_of_a() {
    let probe = longest_account_id();
    assert_eq!(probe.as_str().len(), MAX_ACCOUNT_ID_LEN);
    assert_eq!(probe.as_str(), "a".repeat(64));
}

#[test]
fn new_measures_one_record_of_the_longest_id() {
    let c = Contract::new(record_bytes).unwrap();
    assert_eq!(c.bytes_for_longest_account_id(), 40 + 4 + 64 + 16);
    assert_eq!(c.accounts().len(), 0);
    assert!(c.accounts().entries().is_empty());
}

#[test]
fn new_rejects_usage_that_goes_down() {
    let shrinking = |l: &AccountLedger| 1000 - l.len() as u64;
    assert!(Contract::new(shrinking).is_none());
}

#[test]
fn new_with_flat_usage_gives_zero_unit() {
    let c = Contract::new(|_l: &AccountLedger| 7).unwrap();
    assert_eq!(c.bytes_for_longest_account_id(), 0);
}

#[test]
fn register_then_balance_is_zero() {
    let mut c = contract_with_unit(10);
    assert_eq!(c.internal_register_account(&id("alice.near")), Ok(()));
    assert_eq!(c.internal_unwrap_balance_of(&id("alice.near")), Ok(0));
}

#[test]
fn register_twice_fails_and_keeps_balance() {
    let mut c = contract_with_unit(10);
    let alice = id("alice.near");
    assert_eq!(c.internal_register_account(&alice), Ok(()));
    assert_eq!(c.internal_deposit(&alice, 42), Ok(()));
    assert_eq!(
        c.internal_register_account(&alice),
        Err(ContractError::AlreadyRegistered)
    );
    assert_eq!(c.internal_unwrap_balance_of(&alice), Ok(42));
    assert_eq!(c.accounts().len(), 1);
}

#[test]
fn unwrap_balance_of_unregistered_fails() {
    let c = contract_with_unit(10);
    assert_eq!(
        c.internal_unwrap_balance_of(&id("nobody.near")),
        Err(ContractError::NotRegistered)
    );
}

#[test]
fn deposits_add_up() {
    let mut c = contract_with_unit(10);
    let bob = id("bob.near");
    c.internal_register_account(&bob).unwrap();
    assert_eq!(c.internal_deposit(&bob, 5), Ok(()));
    assert_eq!(c.internal_deposit(&bob, 7), Ok(()));
    assert_eq!(c.internal_unwrap_balance_of(&bob), Ok(12));
}

#[test]
fn deposit_to_the_largest_balance_succeeds() {
    let mut c = contract_with_unit(10);
    let bob = id("bob.near");
    c.internal_register_account(&bob).unwrap();
    assert_eq!(c.internal_deposit(&bob, u128::MAX), Ok(()));
    assert_eq!(c.internal_unwrap_balance_of(&bob), Ok(u128::MAX));
    assert_eq!(c.internal_deposit(&bob, 0), Ok(()));
}

#[test]
fn deposit_overflow_fails_and_keeps_balance() {
    let mut c = contract_with_unit(10);
    let bob = id("bob.near");
    c.internal_register_account(&bob).unwrap();
    c.internal_deposit(&bob, u128::MAX - 3).unwrap();
    assert_eq!(c.internal_deposit(&bob, 4), Err(ContractError::BalanceOverflow));
    assert_eq!(c.internal_unwrap_balance_of(&bob), Ok(u128::MAX - 3));
}

#[test]
fn deposit_to_unregistered_fails_and_creates_nothing() {
    let mut c = contract_with_unit(10);
    let carol = id("carol.near");
    assert_eq!(c.internal_deposit(&carol, 1), Err(ContractError::NotRegistered));
    assert!(!c.accounts().contains_key(&carol));
    assert_eq!(c.accounts().len(), 0);
}

#[test]
fn ledger_insert_get_remove() {
    let mut l = AccountLedger::new();
    assert_eq!(l.insert(&id("a.near"), 1), None);
    assert_eq!(l.insert(&id("b.near"), 2), None);
    assert_eq!(l.insert(&id("a.near"), 3), Some(1));
    assert_eq!(l.len(), 2);
    assert_eq!(l.get(&id("a.near")), Some(3));
    assert_eq!(l.get(&id("c.near")), None);
    assert_eq!(l.remove(&id("a.near")), Some(3));
    assert_eq!(l.remove(&id("a.near")), None);
    assert_eq!(l.len(), 1);
    assert_eq!(l.entries(), vec![(id("b.near"), 2)]);
}

#[test]
fn from_parts_keeps_accounts_and_unit() {
    let mut l = AccountLedger::new();
    l.insert(&id("a.near"), 9);
    let c = Contract::from_parts(l, 77);
    assert_eq!(c.bytes_for_longest_account_id(), 77);
    assert_eq!(c.internal_unwrap_balance_of(&id("a.near")), Ok(9));
}
