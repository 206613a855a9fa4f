//! Errors: what a client is answered, and how the errors read.
use vstd::prelude::*;

use crate::error::{
    in_context, serde_json_is_io, serde_json_message, sqlx_failure_kind, Code, DatabaseFailure,
    FailedOperation, FailureView, LedgerError, Status,
};
use crate::laws::texts::{law_signed_numbers_are_read_back, number_read};
use crate::repository::{create_pool_error, run_migrations_error};
use crate::text::int_text;

verus! {

/// What a client is answered: bad input as an invalid argument, what is missing as not found, what
/// is there already as existing, what an account does not allow as a failed precondition, what
/// another request has overtaken as aborted, and the rest as internal, but for the pool of
/// connections, which is exhausted.
pub proof fn law_every_error_has_its_answer(err: LedgerError, status: Status)
    requires
        call_ensures(<Status as From<LedgerError>>::from, (err,), status),
    ensures
        status.code is InvalidArgument <==> err is ValidationError || err is InvalidAmount
            || err is InvalidCurrency,
        status.code is FailedPrecondition <==> err is BalanceViolation || err is AccountFrozen
            || err is AccountClosed || err is InsufficientBalance,
        status.code is NotFound <==> err is AccountNotFound || err is TransactionNotFound,
        status.code is AlreadyExists <==> err is DuplicateExternalId || err is IdempotencyKeyReused,
        status.code is Aborted <==> err is OptimisticLockError || err is ConcurrencyConflict
            || err is TransactionRollback,
        status.code is Internal <==> err is DatabaseError || err is InternalError
            || err is SerializationError || err is ConfigurationError,
        status.code is ResourceExhausted <==> err is ConnectionPoolExhausted,
{
}

/// The answer says what the error is about: it gives the words of the error where it has its own,
/// and otherwise names the account, the transaction, the external id or the key, and the amounts.
pub proof fn law_answers_say_what_they_are_about(err: LedgerError, status: Status)
    requires
        call_ensures(<Status as From<LedgerError>>::from, (err,), status),
    ensures
        match err {
            LedgerError::ValidationError(m) => status.message@ == m@,
            LedgerError::InvalidAmount(m) => status.message@ == m@,
            LedgerError::InvalidCurrency(m) => status.message@ == m@,
            LedgerError::BalanceViolation(m) => status.message@ == m@,
            LedgerError::AccountNotFound(id) => status.message@ == "Account not found: "@ + id@,
            LedgerError::AccountFrozen(id) => status.message@ == "Account frozen: "@ + id@,
            LedgerError::AccountClosed(id) => status.message@ == "Account closed: "@ + id@,
            LedgerError::InsufficientBalance { account_id, required, available } => {
                status.message@ == "Insufficient balance in "@ + account_id@ + ": required "@
                    + required@ + ", available "@ + available@
            },
            LedgerError::TransactionNotFound(id) => status.message@ == "Transaction not found: "@
                + id@,
            LedgerError::DuplicateExternalId(id) => status.message@
                == "External ID already exists: "@ + id@,
            LedgerError::IdempotencyKeyReused { key, .. } => status.message@
                == "Idempotency key already used: "@ + key@,
            LedgerError::OptimisticLockError { account_id, .. } => status.message@
                == "Concurrent modification of account: "@ + account_id@,
            LedgerError::ConcurrencyConflict(m) => status.message@ == m@,
            LedgerError::DatabaseError(m) => status.message@ == m@,
            LedgerError::ConnectionPoolExhausted => status.message@
                == "Database connection pool exhausted"@,
            LedgerError::TransactionRollback(m) => status.message@ == m@,
            LedgerError::InternalError(m) => status.message@ == m@,
            LedgerError::SerializationError(m) => status.message@ == m@,
            LedgerError::ConfigurationError(m) => status.message@ == m@,
        },
{
}

/// The words that an error reads as say what it is about: they end in the text that it carries,
/// and the versions of a failed optimistic lock stand in it as numbers.
pub proof fn law_errors_read_as_what_they_are_about(err: LedgerError, text: String)
    requires
        call_ensures(LedgerError::to_string, (&err,), text),
    ensures
        match err {
            LedgerError::ValidationError(m) => text@ == "Validation error: "@ + m@,
            LedgerError::InvalidAmount(m) => text@ == "Invalid amount: "@ + m@,
            LedgerError::InvalidCurrency(m) => text@ == "Invalid currency: "@ + m@,
            LedgerError::BalanceViolation(m) => text@ == "Balance violation: "@ + m@,
            LedgerError::AccountNotFound(id) => text@ == "Account not found: "@ + id@,
            LedgerError::AccountFrozen(id) => text@ == "Account is frozen: "@ + id@,
            LedgerError::AccountClosed(id) => text@ == "Account is closed: "@ + id@,
            LedgerError::InsufficientBalance { account_id, required, available } => text@
                == "Insufficient balance in account "@ + account_id@ + ": required "@ + required@
                + ", available "@ + available@,
            LedgerError::TransactionNotFound(id) => text@ == "Transaction not found: "@ + id@,
            LedgerError::DuplicateExternalId(id) => text@ == "Duplicate external ID: "@ + id@,
            LedgerError::IdempotencyKeyReused { key, original_resource_id } => text@
                == "Idempotency key '"@ + key@ + "' already used for resource "@
                + original_resource_id@,
            LedgerError::OptimisticLockError { account_id, expected_version, actual_version } => {
                exists|expected: Seq<char>, actual: Seq<char>|
                    {
                        &&& #[trigger] writes_number(expected, expected_version as int)
                        &&& #[trigger] writes_number(actual, actual_version as int)
                        &&& text@ == "Optimistic lock failed for account "@ + account_id@
                            + ": expected version "@ + expected + ", actual "@ + actual
                    }
            },
            LedgerError::ConcurrencyConflict(m) => text@ == "Concurrency conflict: "@ + m@,
            LedgerError::DatabaseError(m) => text@ == "Database error: "@ + m@,
            LedgerError::ConnectionPoolExhausted => text@ == "Connection pool exhausted"@,
            LedgerError::TransactionRollback(m) => text@ == "Transaction rolled back: "@ + m@,
            LedgerError::InternalError(m) => text@ == "Internal error: "@ + m@,
            LedgerError::SerializationError(m) => text@ == "Serialization error: "@ + m@,
            LedgerError::ConfigurationError(m) => text@ == "Configuration error: "@ + m@,
        },
{
    if let LedgerError::OptimisticLockError { expected_version, actual_version, .. } = err {
        law_signed_numbers_are_read_back(expected_version as int);
        law_signed_numbers_are_read_back(actual_version as int);
        assert(writes_number(int_text(expected_version as int), expected_version as int));
        assert(writes_number(int_text(actual_version as int), actual_version as int));
    }
}

/// Whether a text denotes an integer: its digits, behind a minus sign where it is negative.
pub open spec fn writes_number(text: Seq<char>, i: int) -> bool {
    if i < 0 {
        text[0] == '-' && number_read(text.skip(1)) == -i
    } else {
        text[0] != '-' && number_read(text) == i
    }
}

/// How a failure of the database is told: a unique violation as a duplicate, a violated foreign
/// key as invalid input, a serialization failure as a conflict, a wait for a connection as an
/// exhausted pool, and everything else as an error of the database. The words of the database are
/// handed on.
pub proof fn law_database_failures_are_told_apart(failure: DatabaseFailure, err: LedgerError)
    requires
        call_ensures(<LedgerError as From<DatabaseFailure>>::from, (failure,), err),
    ensures
        match failure {
            DatabaseFailure::RowNotFound => err matches LedgerError::DatabaseError(m) && m@
                == "Row not found"@,
            DatabaseFailure::PoolTimedOut => err is ConnectionPoolExhausted,
            DatabaseFailure::Other(words) => err matches LedgerError::DatabaseError(m) && m@
                == words@,
            DatabaseFailure::Database { code, message } => {
                let unique = code matches Some(c) && c@ == "23505"@;
                let foreign = code matches Some(c) && c@ == "23503"@;
                let serialization = code matches Some(c) && c@ == "40001"@;
                &&& unique <==> err is DuplicateExternalId
                &&& foreign <==> err is ValidationError
                &&& serialization <==> err is ConcurrencyConflict
                &&& !unique && !foreign && !serialization <==> err is DatabaseError
                &&& err matches LedgerError::DuplicateExternalId(m) ==> m@ == message@
                &&& err matches LedgerError::ValidationError(m) ==> m@ == message@
                &&& err matches LedgerError::ConcurrencyConflict(m) ==> m@ == message@
                &&& err matches LedgerError::DatabaseError(m) ==> m@ == message@
            },
        },
{
    reveal_strlit("23505");
    reveal_strlit("23503");
    reveal_strlit("40001");
    assert("23505"@[4] == '5' && "23503"@[4] == '3' && "40001"@[4] == '1');
}

/// The same is told of the errors of the database driver, and an error in the JSON of a value is
/// told as one of serialization.
pub proof fn law_outside_errors_are_told_apart(
    err: sqlx::Error,
    r: LedgerError,
    json: serde_json::Error,
    told: LedgerError,
)
    requires
        call_ensures(<LedgerError as From<sqlx::Error>>::from, (err,), r),
        call_ensures(<LedgerError as From<serde_json::Error>>::from, (json,), told),
    ensures
        match sqlx_failure_kind(err) {
            FailureView::RowNotFound => r matches LedgerError::DatabaseError(m) && m@
                == "Row not found"@,
            FailureView::PoolTimedOut => r is ConnectionPoolExhausted,
            FailureView::Database { code, message } => {
                &&& code == Some("23505"@) ==> (r matches LedgerError::DuplicateExternalId(m) && m@
                    == message)
                &&& code == Some("23503"@) ==> (r matches LedgerError::ValidationError(m) && m@
                    == message)
                &&& code == Some("40001"@) ==> (r matches LedgerError::ConcurrencyConflict(m) && m@
                    == message)
                &&& code != Some("23505"@) && code != Some("23503"@) && code != Some("40001"@) ==> (
                r matches LedgerError::DatabaseError(m) && m@ == message)
            },
            FailureView::Other => r is DatabaseError,
        },
        told is SerializationError,
        !serde_json_is_io(json) ==> (told matches LedgerError::SerializationError(m) && m@
            == serde_json_message(json)),
{
    reveal_strlit("23505");
    reveal_strlit("23503");
    reveal_strlit("40001");
    assert("23505"@[4] == '5' && "23503"@[4] == '3' && "40001"@[4] == '1');
}

/// A pool that could not be made and a migration that did not go through are errors of the
/// database, with the reason in them.
pub proof fn law_failures_to_start_are_told(reason: &str, pool: LedgerError, migration: LedgerError)
    requires
        call_ensures(create_pool_error, (reason,), pool),
        call_ensures(run_migrations_error, (reason,), migration),
    ensures
        pool matches LedgerError::DatabaseError(m) && m@ == reason@,
        migration matches LedgerError::DatabaseError(m) && m@ == "Migration failed: "@ + reason@,
{
}

/// A value passes through as it is, and a failure becomes the error that it stands for, together
/// with what was being done when it came.
pub proof fn law_failures_are_told_in_their_context<T, E: Into<LedgerError>>(
    result: std::result::Result<T, E>,
    context: String,
    r: std::result::Result<T, FailedOperation>,
)
    requires
        call_ensures(in_context::<T, E>, (result, context), r),
    ensures
        result matches Ok(value) ==> (r matches Ok(v) && v == value),
        result matches Err(e) ==> (r matches Err(failed) && failed.context@ == context@
            && call_ensures(E::into, (e,), failed.error)),
{
}

/// An answer has the code and the words that it is made with.
pub proof fn law_answers_have_their_code_and_words(
    code: Code,
    message: String,
    words: &str,
    made: Status,
    invalid: Status,
)
    requires
        call_ensures(Status::new, (code, message), made),
        call_ensures(Status::invalid_argument, (words,), invalid),
    ensures
        made.code == code && made.message@ == message@,
        invalid.code is InvalidArgument && invalid.message@ == words@,
{
}

} // verus!
