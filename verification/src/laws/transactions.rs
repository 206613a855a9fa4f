//! Requests that ask for transactions, and the rows that transactions are stored in.
use vstd::prelude::*;
use vstd::utf8::encode_utf8;

use crate::clock::{on_calendar, DateTime};
use crate::decimal::Decimal;
use crate::domain::entry::{CreateEntryParams, Entry};
use crate::domain::transaction::{
    CreateTransactionParams, Transaction, TransactionWithEntries,
};
use crate::error::{LedgerError, Status};
use crate::ids::{law_id_text_parses_back, uuid_value};
use crate::laws::messages::{lemma_transaction_message, tells_of_transaction};
use crate::proto;
use crate::repository::transaction_repository::{
    NewEntry, NewTransaction, TransactionQuery, TransactionRepository, TransactionUpdate,
};
use crate::service::ledger_service::LedgerServiceImpl;
use crate::service::transactions::TransactionLookup;

verus! {

/// Whether a point in time is not before the one that a message names.
pub open spec fn since(t: DateTime, m: proto::Timestamp) -> bool {
    t.seconds > m.seconds || (t.seconds == m.seconds && t.nanos >= m.nanos)
}

/// Whether a point in time is not after the one that a message names.
pub open spec fn until(t: DateTime, m: proto::Timestamp) -> bool {
    t.seconds < m.seconds || (t.seconds == m.seconds && t.nanos <= m.nanos)
}

/// Whether the calendar has the point in time that a message names, or it names none.
pub open spec fn dated(m: Option<proto::Timestamp>) -> bool {
    m matches Some(t) ==> on_calendar(t.seconds as int, t.nanos as int)
}

/// The calendar has every second of the years from 1 to 9999, in all its nanoseconds.
pub proof fn law_the_calendar_has_ordinary_dates(seconds: i64, nanos: int)
    requires
        -62_135_596_800 <= seconds <= 253_402_300_799,
        0 <= nanos < 1_000_000_000,
    ensures
        on_calendar(seconds as int, nanos),
{
}

/// The transactions that a request for a list selects are exactly those that it asks for: before
/// the transaction that the token names, with an entry on the account, in the status, and created
/// from one date to the other, both dates among them. An empty account, a number that stands for
/// no status, a date that is not given and a token that is no id leave out none.
pub proof fn law_the_transactions_asked_for_are_listed(
    req: proto::ListTransactionsRequest,
    now: DateTime,
    r: Result<TransactionQuery, Status>,
    t: Transaction,
    entries: Vec<Entry>,
    m: proto::Transaction,
)
    requires
        call_ensures(LedgerServiceImpl::list_transactions_at, (&req, now), r),
        call_ensures(LedgerServiceImpl::domain_transaction_to_proto, (t, entries), m),
        dated(req.from_date),
        dated(req.to_date),
    ensures
        r is Ok <==> req.account_id@.len() == 0 || uuid_value(req.account_id@) is Some,
        r matches Err(status) ==> status.code is InvalidArgument,
        r matches Ok(query) ==> {
            &&& query.filter.passes(t, entries@) <==> {
                &&& req.account_id@.len() > 0 ==> exists|i: int|
                    0 <= i < entries.len() && Some((#[trigger] entries@[i]).account_id)
                        == uuid_value(req.account_id@)
                &&& 1 <= req.filter_status <= 4 ==> m.status == req.filter_status
                &&& req.from_date matches Some(from) ==> since(t.created_at, from)
                &&& req.to_date matches Some(to) ==> until(t.created_at, to)
            }
            &&& query.selects(t, entries@) <==> query.filter.passes(t, entries@) && (uuid_value(
                req.page_token@,
            ) matches Some(id) ==> t.id < id)
            &&& query.before == uuid_value(req.page_token@)
        },
{
    if let Ok(query) = r {
        if req.account_id@.len() > 0 {
            let id = uuid_value(req.account_id@).unwrap();
            assert(query.filter.account_id == Some(id));
            if exists|i: int| 0 <= i < entries.len() && Some((#[trigger] entries@[i]).account_id)
                == uuid_value(req.account_id@) {
                let i = choose|i: int|
                    0 <= i < entries.len() && Some((#[trigger] entries@[i]).account_id)
                        == uuid_value(req.account_id@);
                assert(entries@[i].account_id == id);
            }
        } else {
            assert(uuid_value(req.account_id@) is None);
        }
    }
}

/// A date that the calendar has is the date that is filtered by, to the nanosecond, whatever time
/// it is asked at. One that the calendar does not have counts as now. One that is not given is no
/// filter.
pub proof fn law_dates_are_taken_as_given(
    req: proto::ListTransactionsRequest,
    now: DateTime,
    query: TransactionQuery,
)
    requires
        call_ensures(LedgerServiceImpl::list_transactions_at, (&req, now), Ok(query)),
    ensures
        req.from_date is None <==> query.filter.from_date is None,
        req.to_date is None <==> query.filter.to_date is None,
        req.from_date matches Some(m) ==> (query.filter.from_date matches Some(d) && if on_calendar(
            m.seconds as int,
            m.nanos as int,
        ) {
            d.seconds == m.seconds && d.nanos == m.nanos
        } else {
            d == now
        }),
        req.to_date matches Some(m) ==> (query.filter.to_date matches Some(d) && if on_calendar(
            m.seconds as int,
            m.nanos as int,
        ) {
            d.seconds == m.seconds && d.nanos == m.nanos
        } else {
            d == now
        }),
{
}

/// Dates that the calendar has mean the same whenever they are asked for: at any two times, and
/// now, the same transactions are selected.
pub proof fn law_dated_requests_do_not_depend_on_the_time(
    req: proto::ListTransactionsRequest,
    now: DateTime,
    later: DateTime,
    a: TransactionQuery,
    b: TransactionQuery,
    c: TransactionQuery,
)
    requires
        dated(req.from_date),
        dated(req.to_date),
        call_ensures(LedgerServiceImpl::list_transactions_at, (&req, now), Ok(a)),
        call_ensures(LedgerServiceImpl::list_transactions_at, (&req, later), Ok(b)),
        call_ensures(LedgerServiceImpl::list_transactions, (&req,), Ok(c)),
    ensures
        a == b,
        a == c,
{
}

/// Listing transactions now is listing them at the time of the clock: requests are refused for the
/// same reason, and a date that the calendar does not have counts as a time since 1970.
pub proof fn law_listing_now(
    req: proto::ListTransactionsRequest,
    now: DateTime,
    at: Result<TransactionQuery, Status>,
    r: Result<TransactionQuery, Status>,
)
    requires
        call_ensures(LedgerServiceImpl::list_transactions_at, (&req, now), at),
        call_ensures(LedgerServiceImpl::list_transactions, (&req,), r),
    ensures
        r is Ok <==> at is Ok,
        r matches Err(status) ==> (at matches Err(other) && other.code == status.code
            && other.message@ == status.message@),
        r matches Ok(query) ==> (at matches Ok(other) && {
            &&& query.before == other.before
            &&& query.filter.account_id == other.filter.account_id
            &&& query.filter.status == other.filter.status
            &&& query.max_rows == other.max_rows
            &&& dated(req.from_date) ==> query.filter.from_date == other.filter.from_date
            &&& dated(req.to_date) ==> query.filter.to_date == other.filter.to_date
            &&& !dated(req.from_date) ==> (query.filter.from_date matches Some(d) && 0 <= d.seconds
                && d.nanos < 1_000_000_000)
            &&& !dated(req.to_date) ==> (query.filter.to_date matches Some(d) && 0 <= d.seconds
                && d.nanos < 1_000_000_000)
        }),
{
}

/// A page of transactions holds as many rows as the request asks for, but at least 1 and at most
/// 100, and one row more is fetched.
pub proof fn law_pages_of_transactions(
    req: proto::ListTransactionsRequest,
    now: DateTime,
    query: TransactionQuery,
    rows: Vec<Transaction>,
    total: Option<i32>,
    page: (Vec<Transaction>, Option<String>, i32),
)
    requires
        call_ensures(LedgerServiceImpl::list_transactions_at, (&req, now), Ok(query)),
        call_ensures(TransactionRepository::list_page, (req.page_size, rows, total), page),
    ensures
        2 <= query.max_rows <= 101,
        1 <= req.page_size <= 100 ==> query.max_rows == req.page_size + 1,
        req.page_size < 1 ==> query.max_rows == 2,
        req.page_size > 100 ==> query.max_rows == 101,
        page.0.len() == if rows.len() < query.max_rows {
            rows.len() as int
        } else {
            query.max_rows - 1
        },
        forall|i: int| 0 <= i < page.0.len() ==> #[trigger] page.0@[i] == rows@[i],
        rows.len() < query.max_rows ==> page.1 is None,
        rows.len() >= query.max_rows ==> (page.1 matches Some(token) && uuid_value(token@) == Some(
            rows@[page.0.len() - 1].id,
        )),
        total matches Some(n) ==> page.2 == n,
        total is None ==> page.2 == 0,
{
}

/// The next page goes on where the last one ended: its token, given to the next request, selects
/// transactions behind the last one that was handed out, and the filters stay what they are.
pub proof fn law_the_next_page_of_transactions(
    req: proto::ListTransactionsRequest,
    now: DateTime,
    query: TransactionQuery,
    rows: Vec<Transaction>,
    total: Option<i32>,
    page: (Vec<Transaction>, Option<String>, i32),
    shown: Vec<TransactionWithEntries>,
    r: proto::ListTransactionsResponse,
    next: proto::ListTransactionsRequest,
    next_query: TransactionQuery,
    t: Transaction,
    entries: Seq<Entry>,
)
    requires
        call_ensures(LedgerServiceImpl::list_transactions_at, (&req, now), Ok(query)),
        call_ensures(TransactionRepository::list_page, (req.page_size, rows, total), page),
        call_ensures(
            LedgerServiceImpl::list_transactions_response,
            (shown, page.1, page.2),
            r,
        ),
        rows.len() >= query.max_rows,
        next.page_token@ == r.next_page_token@,
        next.account_id@ == req.account_id@,
        next.filter_status == req.filter_status,
        next.from_date == req.from_date,
        next.to_date == req.to_date,
        call_ensures(LedgerServiceImpl::list_transactions_at, (&next, now), Ok(next_query)),
    ensures
        page.0.len() > 0,
        next_query.filter == query.filter,
        next_query.selects(t, entries) <==> query.filter.passes(t, entries) && t.id
            < rows@[page.0.len() - 1].id,
{
}

/// The answer to a request for a list tells of each transaction of the page, in their order, with
/// its entries, and hands on the token and the total.
pub proof fn law_lists_tell_of_their_transactions(
    page: Vec<TransactionWithEntries>,
    token: Option<String>,
    total: i32,
    r: proto::ListTransactionsResponse,
)
    requires
        call_ensures(LedgerServiceImpl::list_transactions_response, (page, token, total), r),
    ensures
        r.transactions.len() == page.len(),
        forall|i: int|
            0 <= i < page.len() ==> tells_of_transaction(
                #[trigger] r.transactions@[i],
                page@[i].transaction,
                page@[i].entries@,
            ),
        token matches Some(t) ==> r.next_page_token@ == t@,
        token is None ==> r.next_page_token@.len() == 0,
        r.total_count == total,
{
    assert forall|i: int| 0 <= i < page.len() implies tells_of_transaction(
        #[trigger] r.transactions@[i],
        page@[i].transaction,
        page@[i].entries@,
    ) by {
        lemma_transaction_message(page@[i].transaction, page@[i].entries@, r.transactions@[i]);
    }
}

/// A transaction is looked for by the id or the idempotency key that a request names. An id that
/// is none and a request that names nothing are refused.
pub proof fn law_transactions_are_looked_for_as_named(
    req: proto::GetTransactionRequest,
    r: Result<TransactionLookup, Status>,
)
    requires
        call_ensures(LedgerServiceImpl::get_transaction, (req,), r),
    ensures
        r matches Err(status) ==> status.code is InvalidArgument,
        req.identifier is None ==> r is Err,
        req.identifier matches Some(proto::TransactionIdentifier::IdempotencyKey(k)) ==> (
        r matches Ok(TransactionLookup::ByIdempotencyKey(f)) && f@ == k@),
        req.identifier matches Some(proto::TransactionIdentifier::Id(text)) ==> match uuid_value(
            text@,
        ) {
            Some(id) => r matches Ok(TransactionLookup::ById(f)) && f == id,
            None => r is Err,
        },
{
}

/// The id that a message shows leads back to the transaction, and so does its idempotency key.
pub proof fn law_shown_transactions_lead_back(
    t: Transaction,
    entries: Vec<Entry>,
    m: proto::Transaction,
    id: String,
    key: String,
    by_id: Result<TransactionLookup, Status>,
    by_key: Result<TransactionLookup, Status>,
)
    requires
        call_ensures(LedgerServiceImpl::domain_transaction_to_proto, (t, entries), m),
        id@ == m.id@,
        key@ == m.idempotency_key@,
        call_ensures(
            LedgerServiceImpl::get_transaction,
            (proto::GetTransactionRequest {
                identifier: Some(proto::TransactionIdentifier::Id(id)),
            },),
            by_id,
        ),
        call_ensures(
            LedgerServiceImpl::get_transaction,
            (proto::GetTransactionRequest {
                identifier: Some(proto::TransactionIdentifier::IdempotencyKey(key)),
            },),
            by_key,
        ),
    ensures
        by_id matches Ok(TransactionLookup::ById(found)) && found == t.id,
        by_key matches Ok(TransactionLookup::ByIdempotencyKey(found)) && found@
            == t.idempotency_key@,
{
    law_id_text_parses_back(t.id);
}

/// What was looked for is what is found, and what was not found is named in the error.
pub proof fn law_found_transactions_are_handed_out(
    row: Option<Transaction>,
    entries: Vec<Entry>,
    id: u128,
    key: String,
    by_id: Result<Transaction, LedgerError>,
    with_entries: Result<TransactionWithEntries, LedgerError>,
    by_key: Result<Transaction, LedgerError>,
)
    requires
        call_ensures(TransactionRepository::get_by_id, (row, id), by_id),
        call_ensures(TransactionRepository::get_with_entries, (row, entries, id), with_entries),
        call_ensures(LedgerServiceImpl::transaction_by_key, (row, key), by_key),
    ensures
        row matches Some(transaction) ==> {
            &&& by_id matches Ok(t) && t == transaction
            &&& with_entries matches Ok(t) && t.transaction == transaction && t.entries@
                == entries@
            &&& by_key matches Ok(t) && t == transaction
        },
        row is None ==> {
            &&& by_id matches Err(LedgerError::TransactionNotFound(text)) && uuid_value(text@)
                == Some(id)
            &&& with_entries matches Err(LedgerError::TransactionNotFound(text)) && uuid_value(
                text@,
            ) == Some(id)
            &&& by_key matches Err(LedgerError::TransactionNotFound(text)) && text@ == key@
        },
{
    law_id_text_parses_back(id);
}

/// The row of a new transaction is pending and has its parameters. It needs a key of 1 to 255
/// bytes.
pub proof fn law_new_transactions_are_pending(
    params: CreateTransactionParams,
    r: Result<NewTransaction, LedgerError>,
)
    requires
        call_ensures(TransactionRepository::create, (&params,), r),
    ensures
        r is Ok <==> params.idempotency_key@.len() > 0 && encode_utf8(
            params.idempotency_key@,
        ).len() <= 255,
        r matches Err(e) ==> e is ValidationError,
        r matches Ok(row) ==> {
            &&& row.idempotency_key@ == params.idempotency_key@
            &&& row.reference == params.reference
            &&& row.description == params.description
            &&& row.status is Pending
            &&& row.metadata@ == params.metadata@
        },
{
}

/// A transaction comes to one of two ends: committed, at a date and with no message, or failed,
/// with the message and without a date. Both ends are those of the transaction that is named.
pub proof fn law_transactions_end_committed_or_failed(
    id: u128,
    message: &str,
    committed: TransactionUpdate,
    failed: TransactionUpdate,
)
    requires
        call_ensures(TransactionRepository::commit, (id,), committed),
        call_ensures(TransactionRepository::fail, (id, message), failed),
    ensures
        committed.id == id && failed.id == id,
        committed.status is Committed && failed.status is Failed,
        committed.set_committed_at && !failed.set_committed_at,
        committed.error_message is None,
        failed.error_message matches Some(m) && m@ == message@,
{
}

/// The row of an entry has the entry's account, side, amount, description and metadata, belongs to
/// its transaction, and records the balance that the entry leaves.
pub proof fn law_new_entries_have_their_parameters(
    transaction_id: u128,
    params: CreateEntryParams,
    balance_after: Decimal,
    row: NewEntry,
)
    requires
        call_ensures(
            TransactionRepository::create_entry,
            (transaction_id, &params, balance_after),
            row,
        ),
    ensures
        row.transaction_id == transaction_id,
        row.account_id == params.account_id,
        row.entry_type == params.entry_type,
        row.amount == params.amount,
        row.description == params.description,
        row.balance_after == balance_after,
        row.metadata@ == params.metadata@,
{
}

} // verus!
