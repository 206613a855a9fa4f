//! Accounts, entries and transactions, and the rules that each keeps to.
pub mod account;
pub mod entry;
pub mod transaction;

pub use account::{Account, AccountStatus, AccountType, CreateAccountParams};
pub use entry::{CreateEntryParams, Entry, EntrySet, EntryType};
pub use transaction::{
    CreateTransactionParams, Transaction, TransactionEvent, TransactionEventType, TransactionStatus,
    TransactionWithEntries,
};
