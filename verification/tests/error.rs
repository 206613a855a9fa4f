use std::borrow::Cow;
use std::fmt;

use velox_ledger::error::{
    in_context, worded_by_the_system, Code, DatabaseFailure, LedgerError, ResultExt, Status,
};

fn text(t: &str) -> String {
    t.to_string()
}

fn check(error: LedgerError, reads: &str, code: Code, answer: &str) {
    assert_eq!(error.to_string(), reads);
    let status = Status::from(error);
    assert_eq!(status.code, code);
    assert_eq!(status.message, answer);
}

#[test]
fn validation_errors() {
    check(
        LedgerError::ValidationError(text("m")),
        "Validation error: m",
        Code::InvalidArgument,
        "m",
    );
    check(LedgerError::InvalidAmount(text("m")), "Invalid amount: m", Code::InvalidArgument, "m");
    check(
        LedgerError::InvalidCurrency(text("m")),
        "Invalid currency: m",
        Code::InvalidArgument,
        "m",
    );
    check(
        LedgerError::BalanceViolation(text("m")),
        "Balance violation: m",
        Code::FailedPrecondition,
        "m",
    );
}

#[test]
fn account_errors() {
    check(
        LedgerError::AccountNotFound(text("7")),
        "Account not found: 7",
        Code::NotFound,
        "Account not found: 7",
    );
    check(
        LedgerError::AccountFrozen(text("7")),
        "Account is frozen: 7",
        Code::FailedPrecondition,
        "Account frozen: 7",
    );
    check(
        LedgerError::AccountClosed(text("7")),
        "Account is closed: 7",
        Code::FailedPrecondition,
        "Account closed: 7",
    );
    check(
        LedgerError::InsufficientBalance {
            account_id: text("7"),
            required: text("10.00"),
            available: text("9.99"),
        },
        "Insufficient balance in account 7: required 10.00, available 9.99",
        Code::FailedPrecondition,
        "Insufficient balance in 7: required 10.00, available 9.99",
    );
}

#[test]
fn transaction_errors() {
    check(
        LedgerError::TransactionNotFound(text("t")),
        "Transaction not found: t",
        Code::NotFound,
        "Transaction not found: t",
    );
    check(
        LedgerError::DuplicateExternalId(text("x")),
        "Duplicate external ID: x",
        Code::AlreadyExists,
        "External ID already exists: x",
    );
    check(
        LedgerError::IdempotencyKeyReused { key: text("k"), original_resource_id: text("r") },
        "Idempotency key 'k' already used for resource r",
        Code::AlreadyExists,
        "Idempotency key already used: k",
    );
}

#[test]
fn concurrency_errors() {
    check(
        LedgerError::OptimisticLockError {
            account_id: text("7"),
            expected_version: -3,
            actual_version: 12,
        },
        "Optimistic lock failed for account 7: expected version -3, actual 12",
        Code::Aborted,
        "Concurrent modification of account: 7",
    );
    check(
        LedgerError::ConcurrencyConflict(text("m")),
        "Concurrency conflict: m",
        Code::Aborted,
        "m",
    );
}

#[test]
fn database_errors() {
    check(LedgerError::DatabaseError(text("m")), "Database error: m", Code::Internal, "m");
    check(
        LedgerError::ConnectionPoolExhausted,
        "Connection pool exhausted",
        Code::ResourceExhausted,
        "Database connection pool exhausted",
    );
    check(
        LedgerError::TransactionRollback(text("m")),
        "Transaction rolled back: m",
        Code::Aborted,
        "m",
    );
}

#[test]
fn internal_errors() {
    check(LedgerError::InternalError(text("m")), "Internal error: m", Code::Internal, "m");
    check(
        LedgerError::SerializationError(text("m")),
        "Serialization error: m",
        Code::Internal,
        "m",
    );
    check(
        LedgerError::ConfigurationError(text("m")),
        "Configuration error: m",
        Code::Internal,
        "m",
    );
}

fn refused(code: Option<&str>) -> LedgerError {
    LedgerError::from(DatabaseFailure::Database {
        code: code.map(text),
        message: text("m"),
    })
}

#[test]
fn failures_of_statements() {
    assert!(matches!(
        LedgerError::from(DatabaseFailure::RowNotFound),
        LedgerError::DatabaseError(m) if m == "Row not found"
    ));
    assert!(matches!(
        LedgerError::from(DatabaseFailure::PoolTimedOut),
        LedgerError::ConnectionPoolExhausted
    ));
    assert!(matches!(refused(Some("23505")), LedgerError::DuplicateExternalId(m) if m == "m"));
    assert!(matches!(refused(Some("23503")), LedgerError::ValidationError(m) if m == "m"));
    assert!(matches!(refused(Some("40001")), LedgerError::ConcurrencyConflict(m) if m == "m"));
    assert!(matches!(refused(Some("23502")), LedgerError::DatabaseError(m) if m == "m"));
    assert!(matches!(refused(None), LedgerError::DatabaseError(m) if m == "m"));
    assert!(matches!(
        LedgerError::from(DatabaseFailure::Other(text("gone"))),
        LedgerError::DatabaseError(m) if m == "gone"
    ));
}

#[test]
fn failures_of_json() {
    let err = serde_json::from_str::<bool>("maybe").unwrap_err();
    let reads = err.to_string();
    assert!(matches!(LedgerError::from(err), LedgerError::SerializationError(m) if m == reads));
}

#[test]
fn failures_of_json_that_the_system_words() {
    let err = serde_json::from_str::<bool>("maybe").unwrap_err();
    assert!(!worded_by_the_system(&err));
    let err = serde_json::Error::io(std::io::Error::other("gone"));
    assert!(worded_by_the_system(&err));
    assert!(matches!(LedgerError::from(err), LedgerError::SerializationError(_)));
}

#[test]
fn failures_in_context() {
    let ok: Result<u8, DatabaseFailure> = Ok(7);
    assert!(matches!(in_context(ok, text("reading")), Ok(7)));
    let err: Result<u8, DatabaseFailure> = Err(DatabaseFailure::PoolTimedOut);
    let failed = in_context(err, text("reading")).unwrap_err();
    assert_eq!(failed.context, "reading");
    assert!(matches!(failed.error, LedgerError::ConnectionPoolExhausted));
}

#[test]
fn results_with_context() {
    let ok: Result<u8, DatabaseFailure> = Ok(7);
    assert!(matches!(ok.with_context(|| "reading"), Ok(7)));
    let err: Result<u8, DatabaseFailure> = Err(DatabaseFailure::PoolTimedOut);
    assert!(matches!(
        err.with_context(|| "reading"),
        Err(LedgerError::ConnectionPoolExhausted)
    ));
}

#[test]
fn answers() {
    let status = Status::new(Code::NotFound, text("m"));
    assert_eq!(status.code, Code::NotFound);
    assert_eq!(status.message, "m");
    let status = Status::invalid_argument("bad");
    assert_eq!(status.code, Code::InvalidArgument);
    assert_eq!(status.message, "bad");
}

#[test]
fn failures_of_sqlx() {
    assert!(matches!(
        LedgerError::from(sqlx::Error::RowNotFound),
        LedgerError::DatabaseError(m) if m == "Row not found"
    ));
    assert!(matches!(
        LedgerError::from(sqlx::Error::PoolTimedOut),
        LedgerError::ConnectionPoolExhausted
    ));
    assert!(matches!(
        LedgerError::from(sqlx::Error::Protocol(text("bad"))),
        LedgerError::DatabaseError(m) if m == "encountered unexpected or invalid data: bad"
    ));
}

#[derive(Debug)]
struct Violation(&'static str);

impl fmt::Display for Violation {
    fn fmt(&self, f: &mut fmt::Formatter<'_>) -> fmt::Result {
        f.write_str("violated")
    }
}

impl std::error::Error for Violation {}

impl sqlx::error::DatabaseError for Violation {
    fn message(&self) -> &str {
        "constraint"
    }

    fn code(&self) -> Option<Cow<'_, str>> {
        Some(Cow::Borrowed(self.0))
    }

    fn as_error(&self) -> &(dyn std::error::Error + Send + Sync + 'static) {
        self
    }

    fn as_error_mut(&mut self) -> &mut (dyn std::error::Error + Send + Sync + 'static) {
        self
    }

    fn into_error(self: Box<Self>) -> Box<dyn std::error::Error + Send + Sync + 'static> {
        self
    }

    fn kind(&self) -> sqlx::error::ErrorKind {
        sqlx::error::ErrorKind::Other
    }
}

#[test]
fn failures_that_the_database_reports() {
    let reported = |code| LedgerError::from(sqlx::Error::Database(Box::new(Violation(code))));
    assert!(matches!(
        reported("23505"),
        LedgerError::DuplicateExternalId(m) if m == "constraint"
    ));
    assert!(matches!(reported("23503"), LedgerError::ValidationError(m) if m == "constraint"));
    assert!(matches!(
        reported("40001"),
        LedgerError::ConcurrencyConflict(m) if m == "constraint"
    ));
    assert!(matches!(reported("42P01"), LedgerError::DatabaseError(m) if m == "constraint"));
}
