//! Fungible-token account ledger with a flat-fee storage-staking protocol.
//!
//! The ledger maps account identifiers to `u128` balances. An account enters
//! it once, by registration, after paying a deposit that covers the storage
//! its record takes; balances then change only through overflow-checked
//! deposits. Reads from the host (the caller, the attached payment, the price
//! of a byte of storage, storage usage) come in as arguments, and refunds go
//! out as values for the host to pay.

pub mod account;
pub mod contract;
pub mod internal;
pub mod laws;
pub mod ledger;
pub mod storage;

pub use account::{longest_account_id, AccountId, MAX_ACCOUNT_ID_LEN};
pub use contract::{Contract, ContractError, ContractView, StorageKey};
pub use ledger::AccountLedger;
pub use storage::{Refund, StorageBalance, StorageBalanceBounds, StorageDepositOutcome};
