//! The messages of the service, and the numbers that stand for enumerated values in them.
//!
//! A map field is a list of its entries.
use vstd::prelude::*;

use crate::domain::account::{AccountStatus, AccountType};
use crate::domain::entry::EntryType;
use crate::domain::transaction::TransactionStatus;

verus! {

/// A decimal number in text.
#[derive(Debug, Clone)]
pub struct Decimal {
    pub value: String,
}

/// A point in time.
#[derive(Debug, Clone, Copy, PartialEq, Eq, Structural)]
pub struct Timestamp {
    pub seconds: i64,
    pub nanos: i32,
}

#[derive(Debug)]
pub struct Account {
    pub id: String,
    pub external_id: String,
    pub name: String,
    pub currency: String,
    pub account_type: i32,
    pub status: i32,
    pub balance: Option<Decimal>,
    pub available_balance: Option<Decimal>,
    pub pending_balance: Option<Decimal>,
    pub version: i64,
    pub metadata: Vec<(String, String)>,
    pub created_at: Option<Timestamp>,
    pub updated_at: Option<Timestamp>,
}

#[derive(Debug)]
pub struct TransactionEntry {
    pub id: String,
    pub transaction_id: String,
    pub account_id: String,
    pub entry_type: i32,
    pub amount: Option<Decimal>,
    pub description: String,
    pub balance_after: Option<Decimal>,
    pub metadata: Vec<(String, String)>,
    pub created_at: Option<Timestamp>,
}

#[derive(Debug)]
pub struct Transaction {
    pub id: String,
    pub idempotency_key: String,
    pub reference: String,
    pub description: String,
    pub status: i32,
    pub entries: Vec<TransactionEntry>,
    pub error_message: String,
    pub metadata: Vec<(String, String)>,
    pub created_at: Option<Timestamp>,
    pub committed_at: Option<Timestamp>,
}

#[derive(Debug)]
pub struct CreateAccountRequest {
    pub idempotency_key: String,
    pub external_id: String,
    pub name: String,
    pub currency: String,
    pub account_type: i32,
    pub initial_balance: Option<Decimal>,
    pub metadata: Vec<(String, String)>,
}

#[derive(Debug)]
pub struct CreateAccountResponse {
    pub account: Option<Account>,
    pub already_existed: bool,
}

#[derive(Debug)]
pub enum AccountIdentifier {
    Id(String),
    ExternalId(String),
}

#[derive(Debug)]
pub struct GetAccountRequest {
    pub identifier: Option<AccountIdentifier>,
}

#[derive(Debug)]
pub struct GetAccountResponse {
    pub account: Option<Account>,
}

#[derive(Debug)]
pub struct GetBalanceRequest {
    pub account_id: String,
}

#[derive(Debug)]
pub struct GetBalanceResponse {
    pub account_id: String,
    pub balance: Option<Decimal>,
    pub available_balance: Option<Decimal>,
    pub pending_balance: Option<Decimal>,
    pub currency: String,
    pub as_of: Option<Timestamp>,
}

#[derive(Debug)]
pub struct ListAccountsRequest {
    pub page_size: i32,
    pub page_token: String,
    pub filter_type: i32,
    pub filter_status: i32,
    pub filter_currency: String,
}

#[derive(Debug)]
pub struct ListAccountsResponse {
    pub accounts: Vec<Account>,
    pub next_page_token: String,
    pub total_count: i32,
}

#[derive(Debug)]
pub struct EntryRequest {
    pub account_id: String,
    pub entry_type: i32,
    pub amount: Option<Decimal>,
    pub description: String,
    pub metadata: Vec<(String, String)>,
}

#[derive(Debug)]
pub struct PostTransactionRequest {
    pub idempotency_key: String,
    pub reference: String,
    pub description: String,
    pub entries: Vec<EntryRequest>,
    pub metadata: Vec<(String, String)>,
    pub expected_versions: Vec<(String, i64)>,
}

#[derive(Debug)]
pub struct PostTransactionResponse {
    pub transaction: Option<Transaction>,
    pub already_existed: bool,
}

#[derive(Debug)]
pub enum TransactionIdentifier {
    Id(String),
    IdempotencyKey(String),
}

#[derive(Debug)]
pub struct GetTransactionRequest {
    pub identifier: Option<TransactionIdentifier>,
}

#[derive(Debug)]
pub struct GetTransactionResponse {
    pub transaction: Option<Transaction>,
}

#[derive(Debug)]
pub struct ListTransactionsRequest {
    pub page_size: i32,
    pub page_token: String,
    pub account_id: String,
    pub filter_status: i32,
    pub from_date: Option<Timestamp>,
    pub to_date: Option<Timestamp>,
}

#[derive(Debug)]
pub struct ListTransactionsResponse {
    pub transactions: Vec<Transaction>,
    pub next_page_token: String,
    pub total_count: i32,
}

#[derive(Debug)]
pub struct HealthCheckResponse {
    pub status: i32,
    pub version: String,
    pub timestamp: Option<Timestamp>,
}

/// The number of a type of account. Zero stands for none.
pub open spec fn account_type_number(t: AccountType) -> i32 {
    match t {
        AccountType::Asset => 1,
        AccountType::Liability => 2,
        AccountType::Equity => 3,
        AccountType::Revenue => 4,
        AccountType::Expense => 5,
    }
}

/// The type of account that a number stands for.
pub open spec fn account_type_of(n: i32) -> Option<AccountType> {
    match n {
        1 => Some(AccountType::Asset),
        2 => Some(AccountType::Liability),
        3 => Some(AccountType::Equity),
        4 => Some(AccountType::Revenue),
        5 => Some(AccountType::Expense),
        _ => None,
    }
}

/// The number of a status of an account. Zero stands for none.
pub open spec fn account_status_number(s: AccountStatus) -> i32 {
    match s {
        AccountStatus::Active => 1,
        AccountStatus::Frozen => 2,
        AccountStatus::Closed => 3,
    }
}

/// The status of an account that a number stands for.
pub open spec fn account_status_of(n: i32) -> Option<AccountStatus> {
    match n {
        1 => Some(AccountStatus::Active),
        2 => Some(AccountStatus::Frozen),
        3 => Some(AccountStatus::Closed),
        _ => None,
    }
}

/// The number of a status of a transaction. Zero stands for none.
pub open spec fn transaction_status_number(s: TransactionStatus) -> i32 {
    match s {
        TransactionStatus::Pending => 1,
        TransactionStatus::Committed => 2,
        TransactionStatus::Failed => 3,
        TransactionStatus::Reversed => 4,
    }
}

/// The status of a transaction that a number stands for.
pub open spec fn transaction_status_of(n: i32) -> Option<TransactionStatus> {
    match n {
        1 => Some(TransactionStatus::Pending),
        2 => Some(TransactionStatus::Committed),
        3 => Some(TransactionStatus::Failed),
        4 => Some(TransactionStatus::Reversed),
        _ => None,
    }
}

/// The number of a side. Zero stands for none.
pub open spec fn entry_type_number(e: EntryType) -> i32 {
    match e {
        EntryType::Debit => 1,
        EntryType::Credit => 2,
    }
}

/// The side that a number stands for.
pub open spec fn entry_type_of(n: i32) -> Option<EntryType> {
    match n {
        1 => Some(EntryType::Debit),
        2 => Some(EntryType::Credit),
        _ => None,
    }
}

/// The number that says whether the service is working.
pub open spec fn serving_status_number(healthy: bool) -> i32 {
    if healthy {
        1
    } else {
        2
    }
}

/// A type of account and its number determine each other.
pub proof fn law_account_type_numbers(t: AccountType, n: i32)
    ensures
        account_type_of(n) == Some(t) <==> account_type_number(t) == n,
        account_type_of(0) is None,
{
}

/// A status of an account and its number determine each other.
pub proof fn law_account_status_numbers(s: AccountStatus, n: i32)
    ensures
        account_status_of(n) == Some(s) <==> account_status_number(s) == n,
        account_status_of(0) is None,
{
}

/// A status of a transaction and its number determine each other.
pub proof fn law_transaction_status_numbers(s: TransactionStatus, n: i32)
    ensures
        transaction_status_of(n) == Some(s) <==> transaction_status_number(s) == n,
        transaction_status_of(0) is None,
{
}

/// A side and its number determine each other.
pub proof fn law_entry_type_numbers(e: EntryType, n: i32)
    ensures
        entry_type_of(n) == Some(e) <==> entry_type_number(e) == n,
        entry_type_of(0) is None,
{
}

} // verus!
