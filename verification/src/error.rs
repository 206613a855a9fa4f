//! What can go wrong, how it reads, and what a client is answered.
use vstd::prelude::*;
use vstd::std_specs::convert::FromSpecImpl;

use crate::text::{append_i64, int_text};

verus! {

pub type Result<T> = std::result::Result<T, LedgerError>;

#[derive(Debug)]
pub enum LedgerError {
    // Validation errors
    ValidationError(String),
    InvalidAmount(String),
    InvalidCurrency(String),
    BalanceViolation(String),
    // Business logic errors
    AccountNotFound(String),
    AccountFrozen(String),
    AccountClosed(String),
    InsufficientBalance { account_id: String, required: String, available: String },
    TransactionNotFound(String),
    DuplicateExternalId(String),
    // Idempotency
    IdempotencyKeyReused { key: String, original_resource_id: String },
    // Concurrency errors
    OptimisticLockError { account_id: String, expected_version: i64, actual_version: i64 },
    ConcurrencyConflict(String),
    // Database errors
    DatabaseError(String),
    ConnectionPoolExhausted,
    TransactionRollback(String),
    // Internal errors
    InternalError(String),
    SerializationError(String),
    ConfigurationError(String),
}

/// A [`LedgerError`] with its texts as sequences of characters.
pub enum LedgerErrorView {
    ValidationError(Seq<char>),
    InvalidAmount(Seq<char>),
    InvalidCurrency(Seq<char>),
    BalanceViolation(Seq<char>),
    AccountNotFound(Seq<char>),
    AccountFrozen(Seq<char>),
    AccountClosed(Seq<char>),
    InsufficientBalance { account_id: Seq<char>, required: Seq<char>, available: Seq<char> },
    TransactionNotFound(Seq<char>),
    DuplicateExternalId(Seq<char>),
    IdempotencyKeyReused { key: Seq<char>, original_resource_id: Seq<char> },
    OptimisticLockError { account_id: Seq<char>, expected_version: i64, actual_version: i64 },
    ConcurrencyConflict(Seq<char>),
    DatabaseError(Seq<char>),
    ConnectionPoolExhausted,
    TransactionRollback(Seq<char>),
    InternalError(Seq<char>),
    SerializationError(Seq<char>),
    ConfigurationError(Seq<char>),
}

impl View for LedgerError {
    type V = LedgerErrorView;

    open spec fn view(&self) -> LedgerErrorView {
        match self {
            LedgerError::ValidationError(m) => LedgerErrorView::ValidationError(m@),
            LedgerError::InvalidAmount(m) => LedgerErrorView::InvalidAmount(m@),
            LedgerError::InvalidCurrency(m) => LedgerErrorView::InvalidCurrency(m@),
            LedgerError::BalanceViolation(m) => LedgerErrorView::BalanceViolation(m@),
            LedgerError::AccountNotFound(id) => LedgerErrorView::AccountNotFound(id@),
            LedgerError::AccountFrozen(id) => LedgerErrorView::AccountFrozen(id@),
            LedgerError::AccountClosed(id) => LedgerErrorView::AccountClosed(id@),
            LedgerError::InsufficientBalance { account_id, required, available } => {
                LedgerErrorView::InsufficientBalance {
                    account_id: account_id@,
                    required: required@,
                    available: available@,
                }
            },
            LedgerError::TransactionNotFound(id) => LedgerErrorView::TransactionNotFound(id@),
            LedgerError::DuplicateExternalId(id) => LedgerErrorView::DuplicateExternalId(id@),
            LedgerError::IdempotencyKeyReused { key, original_resource_id } => {
                LedgerErrorView::IdempotencyKeyReused {
                    key: key@,
                    original_resource_id: original_resource_id@,
                }
            },
            LedgerError::OptimisticLockError { account_id, expected_version, actual_version } => {
                LedgerErrorView::OptimisticLockError {
                    account_id: account_id@,
                    expected_version: *expected_version,
                    actual_version: *actual_version,
                }
            },
            LedgerError::ConcurrencyConflict(m) => LedgerErrorView::ConcurrencyConflict(m@),
            LedgerError::DatabaseError(m) => LedgerErrorView::DatabaseError(m@),
            LedgerError::ConnectionPoolExhausted => LedgerErrorView::ConnectionPoolExhausted,
            LedgerError::TransactionRollback(m) => LedgerErrorView::TransactionRollback(m@),
            LedgerError::InternalError(m) => LedgerErrorView::InternalError(m@),
            LedgerError::SerializationError(m) => LedgerErrorView::SerializationError(m@),
            LedgerError::ConfigurationError(m) => LedgerErrorView::ConfigurationError(m@),
        }
    }
}

/// The kinds of answer to a request that is refused.
#[derive(Debug, Clone, Copy, PartialEq, Eq, Structural)]
pub enum Code {
    InvalidArgument,
    FailedPrecondition,
    NotFound,
    AlreadyExists,
    Aborted,
    Internal,
    ResourceExhausted,
}

/// The answer to a request that is refused.
#[derive(Debug)]
pub struct Status {
    pub code: Code,
    pub message: String,
}

/// A [`Status`] with its text as a sequence of characters.
pub struct StatusView {
    pub code: Code,
    pub message: Seq<char>,
}

impl View for Status {
    type V = StatusView;

    open spec fn view(&self) -> StatusView {
        StatusView { code: self.code, message: self.message@ }
    }
}

/// The answer that an argument of the request is not acceptable.
pub open spec fn invalid_argument(message: Seq<char>) -> StatusView {
    StatusView { code: Code::InvalidArgument, message }
}

impl Status {
    pub fn new(code: Code, message: String) -> (r: Status)
        ensures
            r.code == code,
            r.message == message,
    {
        Status { code, message }
    }

    /// The answer that an argument of the request is not acceptable.
    pub fn invalid_argument(message: &str) -> (r: Status)
        ensures
            r@ == invalid_argument(message@),
    {
        Status { code: Code::InvalidArgument, message: message.to_owned() }
    }
}

/// `prefix` followed by `text`.
pub(crate) fn joined(prefix: &str, text: &str) -> (r: String)
    ensures
        r@ == prefix@ + text@,
{
    let mut out = prefix.to_owned();
    out.append(text);
    out
}

impl LedgerErrorView {
    /// How the error reads.
    pub open spec fn message(self) -> Seq<char> {
        match self {
            LedgerErrorView::ValidationError(m) => "Validation error: "@ + m,
            LedgerErrorView::InvalidAmount(m) => "Invalid amount: "@ + m,
            LedgerErrorView::InvalidCurrency(m) => "Invalid currency: "@ + m,
            LedgerErrorView::BalanceViolation(m) => "Balance violation: "@ + m,
            LedgerErrorView::AccountNotFound(id) => "Account not found: "@ + id,
            LedgerErrorView::AccountFrozen(id) => "Account is frozen: "@ + id,
            LedgerErrorView::AccountClosed(id) => "Account is closed: "@ + id,
            LedgerErrorView::InsufficientBalance { account_id, required, available } => {
                "Insufficient balance in account "@ + account_id + ": required "@ + required
                    + ", available "@ + available
            },
            LedgerErrorView::TransactionNotFound(id) => "Transaction not found: "@ + id,
            LedgerErrorView::DuplicateExternalId(id) => "Duplicate external ID: "@ + id,
            LedgerErrorView::IdempotencyKeyReused { key, original_resource_id } => {
                "Idempotency key '"@ + key + "' already used for resource "@ + original_resource_id
            },
            LedgerErrorView::OptimisticLockError {
                account_id,
                expected_version,
                actual_version,
            } => {
                "Optimistic lock failed for account "@ + account_id + ": expected version "@
                    + int_text(expected_version as int) + ", actual "@ + int_text(
                    actual_version as int,
                )
            },
            LedgerErrorView::ConcurrencyConflict(m) => "Concurrency conflict: "@ + m,
            LedgerErrorView::DatabaseError(m) => "Database error: "@ + m,
            LedgerErrorView::ConnectionPoolExhausted => "Connection pool exhausted"@,
            LedgerErrorView::TransactionRollback(m) => "Transaction rolled back: "@ + m,
            LedgerErrorView::InternalError(m) => "Internal error: "@ + m,
            LedgerErrorView::SerializationError(m) => "Serialization error: "@ + m,
            LedgerErrorView::ConfigurationError(m) => "Configuration error: "@ + m,
        }
    }

    /// What a client is answered when the error ends its request.
    pub open spec fn status(self) -> StatusView {
        match self {
            LedgerErrorView::ValidationError(m) => invalid_argument(m),
            LedgerErrorView::InvalidAmount(m) => invalid_argument(m),
            LedgerErrorView::InvalidCurrency(m) => invalid_argument(m),
            LedgerErrorView::BalanceViolation(m) => {
                StatusView { code: Code::FailedPrecondition, message: m }
            },
            LedgerErrorView::AccountNotFound(id) => {
                StatusView { code: Code::NotFound, message: "Account not found: "@ + id }
            },
            LedgerErrorView::AccountFrozen(id) => {
                StatusView { code: Code::FailedPrecondition, message: "Account frozen: "@ + id }
            },
            LedgerErrorView::AccountClosed(id) => {
                StatusView { code: Code::FailedPrecondition, message: "Account closed: "@ + id }
            },
            LedgerErrorView::InsufficientBalance { account_id, required, available } => {
                StatusView {
                    code: Code::FailedPrecondition,
                    message: "Insufficient balance in "@ + account_id + ": required "@ + required
                        + ", available "@ + available,
                }
            },
            LedgerErrorView::TransactionNotFound(id) => {
                StatusView { code: Code::NotFound, message: "Transaction not found: "@ + id }
            },
            LedgerErrorView::DuplicateExternalId(id) => {
                StatusView {
                    code: Code::AlreadyExists,
                    message: "External ID already exists: "@ + id,
                }
            },
            LedgerErrorView::IdempotencyKeyReused { key, .. } => {
                StatusView {
                    code: Code::AlreadyExists,
                    message: "Idempotency key already used: "@ + key,
                }
            },
            LedgerErrorView::OptimisticLockError { account_id, .. } => {
                StatusView {
                    code: Code::Aborted,
                    message: "Concurrent modification of account: "@ + account_id,
                }
            },
            LedgerErrorView::ConcurrencyConflict(m) => {
                StatusView { code: Code::Aborted, message: m }
            },
            LedgerErrorView::DatabaseError(m) => StatusView { code: Code::Internal, message: m },
            LedgerErrorView::ConnectionPoolExhausted => {
                StatusView {
                    code: Code::ResourceExhausted,
                    message: "Database connection pool exhausted"@,
                }
            },
            LedgerErrorView::TransactionRollback(m) => {
                StatusView { code: Code::Aborted, message: m }
            },
            LedgerErrorView::InternalError(m) => StatusView { code: Code::Internal, message: m },
            LedgerErrorView::SerializationError(m) => {
                StatusView { code: Code::Internal, message: m }
            },
            LedgerErrorView::ConfigurationError(m) => {
                StatusView { code: Code::Internal, message: m }
            },
        }
    }
}

impl LedgerError {
    /// How the error reads.
    pub fn to_string(&self) -> (r: String)
        ensures
            r@ == self@.message(),
    {
        match self {
            LedgerError::ValidationError(m) => joined("Validation error: ", m.as_str()),
            LedgerError::InvalidAmount(m) => joined("Invalid amount: ", m.as_str()),
            LedgerError::InvalidCurrency(m) => joined("Invalid currency: ", m.as_str()),
            LedgerError::BalanceViolation(m) => joined("Balance violation: ", m.as_str()),
            LedgerError::AccountNotFound(id) => joined("Account not found: ", id.as_str()),
            LedgerError::AccountFrozen(id) => joined("Account is frozen: ", id.as_str()),
            LedgerError::AccountClosed(id) => joined("Account is closed: ", id.as_str()),
            LedgerError::InsufficientBalance { account_id, required, available } => {
                let mut out = joined("Insufficient balance in account ", account_id.as_str());
                out.append(": required ");
                out.append(required.as_str());
                out.append(", available ");
                out.append(available.as_str());
                out
            },
            LedgerError::TransactionNotFound(id) => joined("Transaction not found: ", id.as_str()),
            LedgerError::DuplicateExternalId(id) => joined("Duplicate external ID: ", id.as_str()),
            LedgerError::IdempotencyKeyReused { key, original_resource_id } => {
                let mut out = joined("Idempotency key '", key.as_str());
                out.append("' already used for resource ");
                out.append(original_resource_id.as_str());
                out
            },
            LedgerError::OptimisticLockError { account_id, expected_version, actual_version } => {
                let mut out = joined("Optimistic lock failed for account ", account_id.as_str());
                out.append(": expected version ");
                append_i64(&mut out, *expected_version);
                out.append(", actual ");
                append_i64(&mut out, *actual_version);
                out
            },
            LedgerError::ConcurrencyConflict(m) => joined("Concurrency conflict: ", m.as_str()),
            LedgerError::DatabaseError(m) => joined("Database error: ", m.as_str()),
            LedgerError::ConnectionPoolExhausted => "Connection pool exhausted".to_owned(),
            LedgerError::TransactionRollback(m) => joined("Transaction rolled back: ", m.as_str()),
            LedgerError::InternalError(m) => joined("Internal error: ", m.as_str()),
            LedgerError::SerializationError(m) => joined("Serialization error: ", m.as_str()),
            LedgerError::ConfigurationError(m) => joined("Configuration error: ", m.as_str()),
        }
    }
}

impl FromSpecImpl<LedgerError> for Status {
    open spec fn obeys_from_spec() -> bool {
        false
    }

    open spec fn from_spec(err: LedgerError) -> Status {
        arbitrary()
    }
}

impl From<LedgerError> for Status {
    fn from(err: LedgerError) -> (r: Status)
        ensures
            r@ == err@.status(),
    {
        match err {
            LedgerError::ValidationError(m) => Status::new(Code::InvalidArgument, m),
            LedgerError::InvalidAmount(m) => Status::new(Code::InvalidArgument, m),
            LedgerError::InvalidCurrency(m) => Status::new(Code::InvalidArgument, m),
            LedgerError::BalanceViolation(m) => Status::new(Code::FailedPrecondition, m),
            LedgerError::AccountNotFound(id) => {
                Status::new(Code::NotFound, joined("Account not found: ", id.as_str()))
            },
            LedgerError::AccountFrozen(id) => {
                Status::new(Code::FailedPrecondition, joined("Account frozen: ", id.as_str()))
            },
            LedgerError::AccountClosed(id) => {
                Status::new(Code::FailedPrecondition, joined("Account closed: ", id.as_str()))
            },
            LedgerError::InsufficientBalance { account_id, required, available } => {
                let mut out = joined("Insufficient balance in ", account_id.as_str());
                out.append(": required ");
                out.append(required.as_str());
                out.append(", available ");
                out.append(available.as_str());
                Status::new(Code::FailedPrecondition, out)
            },
            LedgerError::TransactionNotFound(id) => {
                Status::new(Code::NotFound, joined("Transaction not found: ", id.as_str()))
            },
            LedgerError::DuplicateExternalId(id) => {
                Status::new(Code::AlreadyExists, joined("External ID already exists: ", id.as_str()))
            },
            LedgerError::IdempotencyKeyReused { key, .. } => {
                Status::new(
                    Code::AlreadyExists,
                    joined("Idempotency key already used: ", key.as_str()),
                )
            },
            LedgerError::OptimisticLockError { account_id, .. } => {
                Status::new(
                    Code::Aborted,
                    joined("Concurrent modification of account: ", account_id.as_str()),
                )
            },
            LedgerError::ConcurrencyConflict(m) => Status::new(Code::Aborted, m),
            LedgerError::DatabaseError(m) => Status::new(Code::Internal, m),
            LedgerError::ConnectionPoolExhausted => {
                Status::new(
                    Code::ResourceExhausted,
                    "Database connection pool exhausted".to_owned(),
                )
            },
            LedgerError::TransactionRollback(m) => Status::new(Code::Aborted, m),
            LedgerError::InternalError(m) => Status::new(Code::Internal, m),
            LedgerError::SerializationError(m) => Status::new(Code::Internal, m),
            LedgerError::ConfigurationError(m) => Status::new(Code::Internal, m),
        }
    }
}

/// How a statement to the database failed.
#[derive(Debug)]
pub enum DatabaseFailure {
    /// A row was expected and there was none.
    RowNotFound,
    /// No connection became free in time.
    PoolTimedOut,
    /// The database refused the statement, under this SQLSTATE code if it gave one.
    Database { code: Option<String>, message: String },
    /// Anything else, in words.
    Other(String),
}

impl DatabaseFailure {
    /// The error that the failure amounts to: a unique violation, a violated foreign key and a
    /// serialization failure are told apart by their SQLSTATE codes.
    pub open spec fn error(self) -> LedgerErrorView {
        match self {
            DatabaseFailure::RowNotFound => LedgerErrorView::DatabaseError("Row not found"@),
            DatabaseFailure::PoolTimedOut => LedgerErrorView::ConnectionPoolExhausted,
            DatabaseFailure::Database { code, message } => reported_error(code_text(code), message@),
            DatabaseFailure::Other(message) => LedgerErrorView::DatabaseError(message@),
        }
    }

    /// The failure without the words of what is not told apart.
    pub open spec fn kind(self) -> FailureView {
        match self {
            DatabaseFailure::RowNotFound => FailureView::RowNotFound,
            DatabaseFailure::PoolTimedOut => FailureView::PoolTimedOut,
            DatabaseFailure::Database { code, message } => {
                FailureView::Database { code: code_text(code), message: message@ }
            },
            DatabaseFailure::Other(_) => FailureView::Other,
        }
    }
}

/// A [`DatabaseFailure`] without the words of what is not told apart.
pub enum FailureView {
    RowNotFound,
    PoolTimedOut,
    Database { code: Option<Seq<char>>, message: Seq<char> },
    Other,
}

impl FailureView {
    /// Whether the failure amounts to this error. What is not told apart gives its words in a
    /// database error.
    pub open spec fn gives(self, e: LedgerErrorView) -> bool {
        match self {
            FailureView::RowNotFound => e == LedgerErrorView::DatabaseError("Row not found"@),
            FailureView::PoolTimedOut => e == LedgerErrorView::ConnectionPoolExhausted,
            FailureView::Database { code, message } => e == reported_error(code, message),
            FailureView::Other => e is DatabaseError,
        }
    }
}

/// The characters of a code, if there is one.
pub open spec fn code_text(code: Option<String>) -> Option<Seq<char>> {
    match code {
        Some(c) => Some(c@),
        None => None,
    }
}

/// The error that a report of the database amounts to, by its SQLSTATE code.
pub open spec fn reported_error(code: Option<Seq<char>>, message: Seq<char>) -> LedgerErrorView {
    if code == Some("23505"@) {
        LedgerErrorView::DuplicateExternalId(message)
    } else if code == Some("23503"@) {
        LedgerErrorView::ValidationError(message)
    } else if code == Some("40001"@) {
        LedgerErrorView::ConcurrencyConflict(message)
    } else {
        LedgerErrorView::DatabaseError(message)
    }
}

impl FromSpecImpl<DatabaseFailure> for LedgerError {
    open spec fn obeys_from_spec() -> bool {
        false
    }

    open spec fn from_spec(failure: DatabaseFailure) -> LedgerError {
        arbitrary()
    }
}

impl From<DatabaseFailure> for LedgerError {
    fn from(failure: DatabaseFailure) -> (r: LedgerError)
        ensures
            r@ == failure.error(),
    {
        match failure {
            DatabaseFailure::RowNotFound => LedgerError::DatabaseError("Row not found".to_owned()),
            DatabaseFailure::PoolTimedOut => LedgerError::ConnectionPoolExhausted,
            DatabaseFailure::Database { code, message } => {
                proof {
                    reveal_strlit("23505");
                    reveal_strlit("23503");
                    reveal_strlit("40001");
                    assert("23505"@.len() == 5 && "23503"@.len() == 5 && "40001"@.len() == 5);
                }
                let code = crate::text::or_empty(code);
                if code == "23505".to_owned() {
                    LedgerError::DuplicateExternalId(message)
                } else if code == "23503".to_owned() {
                    LedgerError::ValidationError(message)
                } else if code == "40001".to_owned() {
                    LedgerError::ConcurrencyConflict(message)
                } else {
                    LedgerError::DatabaseError(message)
                }
            },
            DatabaseFailure::Other(message) => LedgerError::DatabaseError(message),
        }
    }
}

/// The error of the `sqlx` crate.
#[verifier::external_type_specification]
#[verifier::external_body]
pub struct ExSqlxError(sqlx::Error);

/// Which failure an `sqlx::Error` is.
pub uninterp spec fn sqlx_failure_kind(err: sqlx::Error) -> FailureView;

/// Tells the variants of `sqlx::Error` apart, with `sqlx::error::DatabaseError::code` and
/// `sqlx::error::DatabaseError::message` of what the database reports, and the `Display` of the
/// rest. Which failure it is, with the code and the message of a report, depends on the error
/// alone. The words of the rest may come from the operating system and are left open.
#[verifier::external_body]
fn sqlx_failure(err: &sqlx::Error) -> (r: DatabaseFailure)
    ensures
        r.kind() == sqlx_failure_kind(*err),
{
    match err {
        sqlx::Error::RowNotFound => DatabaseFailure::RowNotFound,
        sqlx::Error::PoolTimedOut => DatabaseFailure::PoolTimedOut,
        sqlx::Error::Database(e) => DatabaseFailure::Database {
            code: e.code().map(|code| code.to_string()),
            message: e.message().to_string(),
        },
        _ => DatabaseFailure::Other(err.to_string()),
    }
}

impl FromSpecImpl<sqlx::Error> for LedgerError {
    open spec fn obeys_from_spec() -> bool {
        false
    }

    open spec fn from_spec(err: sqlx::Error) -> LedgerError {
        arbitrary()
    }
}

impl From<sqlx::Error> for LedgerError {
    fn from(err: sqlx::Error) -> (r: LedgerError)
        ensures
            sqlx_failure_kind(err).gives(r@),
    {
        LedgerError::from(sqlx_failure(&err))
    }
}

/// The error of the `serde_json` crate.
#[verifier::external_type_specification]
#[verifier::external_body]
pub struct ExSerdeJsonError(serde_json::Error);

/// Whether a `serde_json::Error` was caused by a failure to read or write bytes.
pub uninterp spec fn serde_json_is_io(err: serde_json::Error) -> bool;

/// How a `serde_json::Error` reads that was not caused by a failure to read or write bytes.
pub uninterp spec fn serde_json_message(err: serde_json::Error) -> Seq<char>;

/// `serde_json::Error::is_io`: whether the error was caused by a failure to read or write bytes.
#[verifier::external_body]
fn serde_json_error_is_io(err: &serde_json::Error) -> (r: bool)
    ensures
        r == serde_json_is_io(*err),
{
    err.is_io()
}

/// The `Display` of `serde_json::Error`. It depends on the error alone, but for an error that was
/// caused by a failure to read or write bytes: the words of that come from the operating system
/// and are left open.
#[verifier::external_body]
fn serde_json_error_text(err: &serde_json::Error) -> (r: String)
    ensures
        !serde_json_is_io(*err) ==> r@ == serde_json_message(*err),
{
    err.to_string()
}

/// Whether the words of an error come from the operating system: it was caused by a failure to
/// read or write bytes.
pub fn worded_by_the_system(err: &serde_json::Error) -> (r: bool)
    ensures
        r == serde_json_is_io(*err),
{
    serde_json_error_is_io(err)
}

impl FromSpecImpl<serde_json::Error> for LedgerError {
    open spec fn obeys_from_spec() -> bool {
        false
    }

    open spec fn from_spec(err: serde_json::Error) -> LedgerError {
        arbitrary()
    }
}

impl From<serde_json::Error> for LedgerError {
    fn from(err: serde_json::Error) -> (r: LedgerError)
        ensures
            r@ is SerializationError,
            !serde_json_is_io(err) ==> r@ == LedgerErrorView::SerializationError(
                serde_json_message(err),
            ),
    {
        LedgerError::SerializationError(serde_json_error_text(&err))
    }
}

/// A failure, and what was being done when it came.
#[derive(Debug)]
pub struct FailedOperation {
    pub error: LedgerError,
    pub context: String,
}

/// The value, or the failure as a [`LedgerError`] together with what was being done, for the
/// caller to log both.
pub fn in_context<T, E: Into<LedgerError>>(
    result: std::result::Result<T, E>,
    context: String,
) -> (r: std::result::Result<T, FailedOperation>)
    ensures
        match result {
            Ok(value) => r == Ok::<T, FailedOperation>(value),
            Err(e) => r matches Err(failed) && failed.context == context && call_ensures(
                E::into,
                (e,),
                failed.error,
            ),
        },
{
    match result {
        Ok(value) => Ok(value),
        Err(e) => Err(FailedOperation { error: e.into(), context }),
    }
}

pub trait ResultExt<T>: Sized {
    /// The value, or the failure as a [`LedgerError`]. What `f` would say is not asked for, as
    /// nothing is logged here: [`in_context`] hands a failure out with what was being done.
    fn with_context<F, S>(self, f: F) -> Result<T> where F: FnOnce() -> S, S: Into<String>;
}

impl<T, E: Into<LedgerError>> ResultExt<T> for std::result::Result<T, E> {
    fn with_context<F, S>(self, f: F) -> (r: Result<T>) where F: FnOnce() -> S, S: Into<String>
        ensures
            match self {
                Ok(value) => r == Ok::<T, LedgerError>(value),
                Err(e) => r matches Err(err) && call_ensures(E::into, (e,), err),
            },
    {
        match self {
            Ok(value) => Ok(value),
            Err(e) => Err(e.into()),
        }
    }
}

} // verus!
