//! A double-entry ledger: accounts, entries that balance, and the transactions that post them.
//!
//! [`domain`] holds the rules of accounts, entries and transactions. [`service`] says what each
//! request is answered and what has to be done for it, [`repository`] what is read from and
//! written to the database for that, and [`webhook`] how others are told. [`laws`] says what holds
//! of all of them together. The library does no input or output of its own: whoever uses it runs
//! the statements and carries the messages.
pub mod clock;
pub mod config;
pub mod decimal;
pub mod domain;
pub mod error;
pub mod ids;
pub mod json;
pub mod laws;
pub mod proto;
pub mod queue;
pub mod repository;
pub mod service;
pub mod text;
pub mod webhook;
