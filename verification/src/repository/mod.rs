//! What is read from and written to the database: the rows of each statement, and what its
//! answer means. The statements themselves are run by the caller.
use vstd::prelude::*;

use crate::error::{joined, LedgerError, LedgerErrorView};

pub mod account_repository;
pub mod idempotency_repository;
pub mod page;
pub mod transaction_repository;

pub use account_repository::AccountRepository;
pub use idempotency_repository::IdempotencyRepository;
pub use transaction_repository::TransactionRepository;

verus! {

/// The error that no pool of connections could be made, with the reason in words.
pub fn create_pool_error(reason: &str) -> (r: LedgerError)
    ensures
        r@ == LedgerErrorView::DatabaseError(reason@),
{
    LedgerError::DatabaseError(reason.to_owned())
}

/// The error that a migration did not go through, with the reason in words.
pub fn run_migrations_error(reason: &str) -> (r: LedgerError)
    ensures
        r@ == LedgerErrorView::DatabaseError("Migration failed: "@ + reason@),
{
    LedgerError::DatabaseError(joined("Migration failed: ", reason))
}

} // verus!
