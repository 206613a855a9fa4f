//! What holds of the service as a whole, said of what goes into its operations and what comes out.
//!
//! A law that takes `call_ensures(f, arguments, result)` speaks of every result that the operation
//! `f` can give for these arguments. It says what that result must satisfy in terms of the fields
//! of the requests, rows and messages alone, or how the results of several operations belong
//! together.
pub mod accounts;
pub mod amounts;
pub mod deliveries;
pub mod errors;
pub mod messages;
pub mod metadata;
pub mod plans;
pub mod postings;
pub mod requests;
pub mod rules;
pub mod storage;
pub mod texts;
pub mod transactions;
