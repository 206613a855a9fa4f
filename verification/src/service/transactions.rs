//! Requests that ask for transactions.
use vstd::prelude::*;

use crate::clock;
use crate::clock::{clock_time, from_timestamp, on_calendar, DateTime};
use crate::domain::transaction::{Transaction, TransactionWithEntries};
use crate::error::{invalid_argument, LedgerError, LedgerErrorView, Status, StatusView};
use crate::ids::{parse_id, uuid_value};
use crate::proto;
use crate::proto::transaction_status_of;
use crate::repository::page::page_limit;
use crate::repository::transaction_repository::{TransactionQuery, TransactionRepository};
use crate::service::ledger_service::{transaction_message, LedgerServiceImpl};
use crate::text::{or_empty, text_or_empty};

verus! {

/// What to look for a transaction by.
#[derive(Debug)]
pub enum TransactionLookup {
    ById(u128),
    ByIdempotencyKey(String),
}

/// The point in time that a message names, or `now` where the calendar does not have it.
pub open spec fn date_asked_for(t: Option<proto::Timestamp>, now: DateTime) -> Option<DateTime> {
    match t {
        Some(t) => if on_calendar(t.seconds as int, t.nanos as int) {
            Some(DateTime { seconds: t.seconds, nanos: t.nanos as u32 })
        } else {
            Some(now)
        },
        None => None,
    }
}

/// What a request for a list of transactions is answered at once, if anything is wrong with it.
pub open spec fn list_transactions_problem(req: proto::ListTransactionsRequest) -> Option<
    StatusView,
> {
    if req.account_id@.len() != 0 && uuid_value(req.account_id@) is None {
        Some(invalid_argument("Invalid account ID"@))
    } else {
        None
    }
}

/// Whether the query is the one that a request for a list of transactions asks for. An empty
/// account, a number that stands for no status and a token that is no id are no filters.
pub open spec fn transactions_asked_for(
    req: proto::ListTransactionsRequest,
    query: TransactionQuery,
    now: DateTime,
) -> bool {
    &&& query.before == uuid_value(req.page_token@)
    &&& query.filter.account_id == uuid_value(req.account_id@)
    &&& query.filter.status == transaction_status_of(req.filter_status)
    &&& query.filter.from_date == date_asked_for(req.from_date, now)
    &&& query.filter.to_date == date_asked_for(req.to_date, now)
    &&& query.max_rows == page_limit(req.page_size as int) + 1
}

/// A list of transactions in a message: each of them, in the same order.
pub open spec fn transactions_message(
    m: Seq<proto::Transaction>,
    transactions: Seq<TransactionWithEntries>,
) -> bool {
    &&& m.len() == transactions.len()
    &&& forall|i: int|
        0 <= i < m.len() ==> transaction_message(
            #[trigger] m[i],
            transactions[i].transaction,
            transactions[i].entries@,
        )
}

/// The point in time that a message names, or `now`.
fn parse_date(t: Option<proto::Timestamp>, now: DateTime) -> (r: Option<DateTime>)
    ensures
        r == date_asked_for(t, now),
{
    match t {
        Some(t) => {
            if t.nanos < 0 {
                return Some(now);
            }
            match from_timestamp(t.seconds, t.nanos as u32) {
                Some(date) => Some(date),
                None => Some(now),
            }
        },
        None => None,
    }
}

impl LedgerServiceImpl {
    /// What to look for the transaction of a request by.
    pub fn get_transaction(req: proto::GetTransactionRequest) -> (r: Result<
        TransactionLookup,
        Status,
    >)
        ensures
            match req.identifier {
                Some(proto::TransactionIdentifier::Id(id)) => match uuid_value(id@) {
                    Some(value) => r matches Ok(TransactionLookup::ById(found)) && found == value,
                    None => r matches Err(status) && status@ == invalid_argument(
                        "Invalid transaction ID"@,
                    ),
                },
                Some(proto::TransactionIdentifier::IdempotencyKey(key)) => r matches Ok(
                    TransactionLookup::ByIdempotencyKey(found),
                ) && found == key,
                None => r matches Err(status) && status@ == invalid_argument(
                    "Transaction identifier required"@,
                ),
            },
    {
        match req.identifier {
            Some(proto::TransactionIdentifier::Id(id)) => match parse_id(id.as_str()) {
                Some(value) => Ok(TransactionLookup::ById(value)),
                None => Err(Status::invalid_argument("Invalid transaction ID")),
            },
            Some(proto::TransactionIdentifier::IdempotencyKey(key)) => Ok(
                TransactionLookup::ByIdempotencyKey(key),
            ),
            None => Err(Status::invalid_argument("Transaction identifier required")),
        }
    }

    /// The transaction that was looked for by its idempotency key.
    pub fn transaction_by_key(row: Option<Transaction>, key: String) -> (r: Result<
        Transaction,
        LedgerError,
    >)
        ensures
            match (row, r) {
                (Some(transaction), Ok(t)) => t == transaction,
                (None, Err(e)) => e@ == LedgerErrorView::TransactionNotFound(key@),
                _ => false,
            },
    {
        match row {
            Some(transaction) => Ok(transaction),
            None => Err(LedgerError::TransactionNotFound(key)),
        }
    }

    /// The answer to a request for a transaction.
    pub fn get_transaction_response(found: TransactionWithEntries) -> (r:
        proto::GetTransactionResponse)
        ensures
            r.transaction matches Some(m) && transaction_message(
                m,
                found.transaction,
                found.entries@,
            ),
    {
        proto::GetTransactionResponse {
            transaction: Some(
                Self::domain_transaction_to_proto(found.transaction, found.entries),
            ),
        }
    }

    /// What to fetch for a request for a list of transactions. A date that the calendar does not
    /// have counts as now.
    pub fn list_transactions(req: &proto::ListTransactionsRequest) -> (r: Result<
        TransactionQuery,
        Status,
    >)
        ensures
            match r {
                Ok(query) => list_transactions_problem(*req) is None && exists|now: DateTime|
                    {
                        &&& clock_time(now)
                        &&& #[trigger] transactions_asked_for(*req, query, now)
                    },
                Err(status) => list_transactions_problem(*req) == Some(status@),
            },
    {
        Self::list_transactions_at(req, clock::now())
    }

    /// What to fetch for a request for a list of transactions at the time `now`.
    pub fn list_transactions_at(req: &proto::ListTransactionsRequest, now: DateTime) -> (r: Result<
        TransactionQuery,
        Status,
    >)
        ensures
            match r {
                Ok(query) => list_transactions_problem(*req) is None && transactions_asked_for(
                    *req,
                    query,
                    now,
                ),
                Err(status) => list_transactions_problem(*req) == Some(status@),
            },
    {
        let account_id = if req.account_id.as_str().is_empty() {
            None
        } else {
            match parse_id(req.account_id.as_str()) {
                Some(id) => Some(id),
                None => return Err(Status::invalid_argument("Invalid account ID")),
            }
        };
        let filter_status = Self::proto_transaction_status(req.filter_status);
        let page_token = if req.page_token.as_str().is_empty() {
            None
        } else {
            Some(req.page_token.as_str())
        };
        Ok(
            TransactionRepository::list(
                req.page_size,
                page_token,
                account_id,
                filter_status,
                parse_date(req.from_date, now),
                parse_date(req.to_date, now),
            ),
        )
    }

    /// The answer to a request for a list of transactions: the page, with the entries of each
    /// transaction, and what [`TransactionRepository::list_page`] has given with it.
    pub fn list_transactions_response(
        page: Vec<TransactionWithEntries>,
        next_token: Option<String>,
        total: i32,
    ) -> (r: proto::ListTransactionsResponse)
        ensures
            transactions_message(r.transactions@, page@),
            r.next_page_token@ == text_or_empty(next_token),
            r.total_count == total,
    {
        let ghost all = page@;
        let mut messages: Vec<proto::Transaction> = Vec::new();
        for t in it: page
            invariant
                it.seq() == all,
                transactions_message(messages@, all.take(it.index() as int)),
        {
            let m = Self::domain_transaction_to_proto(t.transaction, t.entries);
            messages.push(m);
        }
        assert(all.take(all.len() as int) =~= all);
        proto::ListTransactionsResponse {
            transactions: messages,
            next_page_token: or_empty(next_token),
            total_count: total,
        }
    }
}

} // verus!
