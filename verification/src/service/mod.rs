//! The service: what each request is answered, and what has to be done for it.
pub mod accounts;
pub mod books;
pub mod ledger_service;
pub mod posting;
pub mod transactions;

pub use ledger_service::LedgerServiceImpl;
