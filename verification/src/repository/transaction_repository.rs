//! Transactions and their entries in the database.
use vstd::prelude::*;

use crate::clock::DateTime;
use crate::decimal::Decimal;
use crate::domain::entry::{CreateEntryParams, Entry, EntryType};
use crate::domain::transaction::{
    CreateTransactionParams, Transaction, TransactionStatus, TransactionWithEntries,
};
use crate::error::{LedgerError, LedgerErrorView, Result};
use crate::ids::{id_text, uuid_text, uuid_value};
use crate::repository::page::{
    count_or_zero, cut, limit_of, page_limit, page_rows, token_id, token_to_id, total_count,
};

verus! {

pub struct TransactionRepository;

/// A row to be inserted into the transactions. The database gives it its id and date.
#[derive(Debug)]
pub struct NewTransaction {
    pub idempotency_key: String,
    pub reference: Option<String>,
    pub description: Option<String>,
    pub status: TransactionStatus,
    pub metadata: String,
}

/// A row to be inserted into the entries. The database gives it its id and date.
#[derive(Debug)]
pub struct NewEntry {
    pub transaction_id: u128,
    pub account_id: u128,
    pub entry_type: EntryType,
    pub amount: Decimal,
    pub description: Option<String>,
    pub balance_after: Decimal,
    pub metadata: String,
}

/// How the row of a transaction changes when the transaction comes to its end.
#[derive(Debug)]
pub struct TransactionUpdate {
    pub id: u128,
    pub status: TransactionStatus,
    /// The new error message. Without one, the message stays as it is.
    pub error_message: Option<String>,
    /// Whether the date of the commit is set to the current time.
    pub set_committed_at: bool,
}

/// Which transactions to list, whatever the page.
#[derive(Debug, Clone, Copy)]
pub struct TransactionFilter {
    pub account_id: Option<u128>,
    pub status: Option<TransactionStatus>,
    pub from_date: Option<DateTime>,
    pub to_date: Option<DateTime>,
}

/// Which transactions to fetch, in descending order of their ids. All that pass the filter are
/// counted.
#[derive(Debug, Clone, Copy)]
pub struct TransactionQuery {
    pub before: Option<u128>,
    pub filter: TransactionFilter,
    pub max_rows: i32,
}

/// Whether one point in time is not after another.
pub open spec fn not_after(a: DateTime, b: DateTime) -> bool {
    a.seconds < b.seconds || (a.seconds == b.seconds && a.nanos <= b.nanos)
}

impl TransactionFilter {
    /// Whether a transaction with these entries passes the filter.
    pub open spec fn passes(self, transaction: Transaction, entries: Seq<Entry>) -> bool {
        &&& self.account_id matches Some(id) ==> exists|i: int|
            0 <= i < entries.len() && (#[trigger] entries[i]).account_id == id
        &&& self.status matches Some(s) ==> transaction.status == s
        &&& self.from_date matches Some(d) ==> not_after(d, transaction.created_at)
        &&& self.to_date matches Some(d) ==> not_after(transaction.created_at, d)
    }

    /// How many of the transactions pass the filter, each counted once however many of its
    /// entries are on the account.
    pub open spec fn count(self, transactions: Seq<TransactionWithEntries>) -> nat
        decreases transactions.len(),
    {
        if transactions.len() == 0 {
            0
        } else {
            let last = transactions.last();
            self.count(transactions.drop_last()) + if self.passes(
                last.transaction,
                last.entries@,
            ) {
                1nat
            } else {
                0
            }
        }
    }
}

impl TransactionQuery {
    /// Whether a transaction with these entries is among those that are asked for.
    pub open spec fn selects(self, transaction: Transaction, entries: Seq<Entry>) -> bool {
        &&& self.before matches Some(id) ==> transaction.id < id
        &&& self.filter.passes(transaction, entries)
    }
}

/// What to fetch for a page of transactions.
pub open spec fn page_query(
    page_size: i32,
    page_token: Option<&str>,
    filter: TransactionFilter,
) -> TransactionQuery {
    TransactionQuery {
        before: token_id(page_token),
        filter,
        max_rows: (page_limit(page_size as int) + 1) as i32,
    }
}

impl TransactionRepository {
    /// The row of a new transaction, which is pending until its entries are posted.
    pub fn create(params: &CreateTransactionParams) -> (r: Result<NewTransaction>)
        ensures
            match r {
                Ok(row) => {
                    &&& params.problem() is None
                    &&& row.idempotency_key == params.idempotency_key
                    &&& row.reference == params.reference
                    &&& row.description == params.description
                    &&& row.status is Pending
                    &&& row.metadata == params.metadata
                },
                Err(e) => params.problem() matches Some(message) && e@
                    == LedgerErrorView::ValidationError(message),
            },
    {
        match params.validate() {
            Ok(_) => {},
            Err(message) => return Err(LedgerError::ValidationError(message.to_owned())),
        }
        let reference = params.reference.clone();
        let description = params.description.clone();
        assert(reference == params.reference);
        assert(description == params.description);
        Ok(
            NewTransaction {
                idempotency_key: params.idempotency_key.clone(),
                reference,
                description,
                status: TransactionStatus::Pending,
                metadata: params.metadata.clone(),
            },
        )
    }

    /// The row of an entry that leaves its account with the balance `balance_after`.
    pub fn create_entry(
        transaction_id: u128,
        params: &CreateEntryParams,
        balance_after: Decimal,
    ) -> (r: NewEntry)
        ensures
            r.transaction_id == transaction_id,
            r.account_id == params.account_id,
            r.entry_type == params.entry_type,
            r.amount == params.amount,
            r.description == params.description,
            r.balance_after == balance_after,
            r.metadata == params.metadata,
    {
        let description = params.description.clone();
        assert(description == params.description);
        NewEntry {
            transaction_id,
            account_id: params.account_id,
            entry_type: params.entry_type,
            amount: params.amount,
            description,
            balance_after,
            metadata: params.metadata.clone(),
        }
    }

    /// The end of a transaction whose entries are posted.
    pub fn commit(id: u128) -> (r: TransactionUpdate)
        ensures
            r.id == id,
            r.status is Committed,
            r.error_message is None,
            r.set_committed_at,
    {
        TransactionUpdate {
            id,
            status: TransactionStatus::Committed,
            error_message: None,
            set_committed_at: true,
        }
    }

    /// The end of a transaction that could not be posted.
    pub fn fail(id: u128, error_message: &str) -> (r: TransactionUpdate)
        ensures
            r.id == id,
            r.status is Failed,
            r.error_message matches Some(m) && m@ == error_message@,
            !r.set_committed_at,
    {
        TransactionUpdate {
            id,
            status: TransactionStatus::Failed,
            error_message: Some(error_message.to_owned()),
            set_committed_at: false,
        }
    }

    /// The transaction that was looked for by its id.
    pub fn get_by_id(row: Option<Transaction>, id: u128) -> (r: Result<Transaction>)
        ensures
            match (row, r) {
                (Some(transaction), Ok(t)) => t == transaction,
                (None, Err(e)) => e@ == LedgerErrorView::TransactionNotFound(uuid_text(id)),
                _ => false,
            },
    {
        match row {
            Some(transaction) => Ok(transaction),
            None => Err(LedgerError::TransactionNotFound(id_text(id))),
        }
    }

    /// The transaction that was looked for by its id, and its entries.
    pub fn get_with_entries(row: Option<Transaction>, entries: Vec<Entry>, id: u128) -> (r: Result<
        TransactionWithEntries,
    >)
        ensures
            match (row, r) {
                (Some(transaction), Ok(t)) => t.transaction == transaction && t.entries == entries,
                (None, Err(e)) => e@ == LedgerErrorView::TransactionNotFound(uuid_text(id)),
                _ => false,
            },
    {
        match Self::get_by_id(row, id) {
            Ok(transaction) => Ok(TransactionWithEntries::new(transaction, entries)),
            Err(e) => Err(e),
        }
    }

    /// What to fetch for a page of transactions: those before the token that pass the filters,
    /// and one more than the page holds.
    pub fn list(
        page_size: i32,
        page_token: Option<&str>,
        account_id: Option<u128>,
        filter_status: Option<TransactionStatus>,
        from_date: Option<DateTime>,
        to_date: Option<DateTime>,
    ) -> (r: TransactionQuery)
        ensures
            r == page_query(
                page_size,
                page_token,
                TransactionFilter { account_id, status: filter_status, from_date, to_date },
            ),
    {
        TransactionQuery {
            before: token_to_id(page_token),
            filter: TransactionFilter { account_id, status: filter_status, from_date, to_date },
            max_rows: limit_of(page_size) + 1,
        }
    }

    /// A page of transactions, the token for the next page if there is one, and how many
    /// transactions pass the filters in all.
    pub fn list_page(page_size: i32, rows: Vec<Transaction>, total: Option<i32>) -> (r: (
        Vec<Transaction>,
        Option<String>,
        i32,
    ))
        ensures
            r.0@ == page_rows(rows@, page_limit(page_size as int)),
            match r.1 {
                Some(token) => rows.len() > page_limit(page_size as int) && token@ == uuid_text(
                    r.0@.last().id,
                ) && uuid_value(token@) == Some(r.0@.last().id),
                None => rows.len() <= page_limit(page_size as int),
            },
            r.2 == total_count(total),
    {
        let (page, has_more) = cut(page_size, rows);
        let next_token = if has_more {
            Some(id_text(page[page.len() - 1].id))
        } else {
            None
        };
        (page, next_token, count_or_zero(total))
    }
}

/// The next page goes on where the last one ended: of the transactions that pass the filters, in
/// descending order of their ids, a query with the id of one of them as its token selects exactly
/// those that follow it.
pub proof fn law_next_transactions_follow_the_token(
    transactions: Seq<TransactionWithEntries>,
    next: TransactionQuery,
    n: int,
    i: int,
)
    requires
        forall|p: int, q: int|
            0 <= p < q < transactions.len() ==> transactions[p].transaction.id
                > transactions[q].transaction.id,
        forall|p: int|
            0 <= p < transactions.len() ==> next.filter.passes(
                (#[trigger] transactions[p]).transaction,
                transactions[p].entries@,
            ),
        0 < n <= transactions.len(),
        next.before == Some(transactions[n - 1].transaction.id),
        0 <= i < transactions.len(),
    ensures
        next.selects(transactions[i].transaction, transactions[i].entries@) <==> i >= n,
{
}

/// The total is the same on every page: it counts what passes the filter, whatever the page size
/// and the token are, and what a page selects is among that.
pub proof fn law_total_is_the_same_on_every_page(
    a_size: i32,
    a_token: Option<&str>,
    b_size: i32,
    b_token: Option<&str>,
    filter: TransactionFilter,
    transactions: Seq<TransactionWithEntries>,
)
    ensures
        page_query(a_size, a_token, filter).filter.count(transactions) == page_query(
            b_size,
            b_token,
            filter,
        ).filter.count(transactions),
        page_query(a_size, a_token, filter).filter.count(transactions) == filter.count(
            transactions,
        ),
        forall|i: int|
            0 <= i < transactions.len() && page_query(a_size, a_token, filter).selects(
                (#[trigger] transactions[i]).transaction,
                transactions[i].entries@,
            ) ==> filter.passes(transactions[i].transaction, transactions[i].entries@),
{
}

} // verus!
