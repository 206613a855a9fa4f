//! What is read from and written to the database.
use vstd::prelude::*;

use crate::clock::{add_hours, from_timestamp, DateTime, MAX_SECONDS, MIN_SECONDS};
use crate::decimal::{Decimal, Overflow};
use crate::domain::account::{Account, AccountStatus, AccountType};
use crate::domain::transaction::TransactionStatus;
use crate::error::{LedgerError, LedgerErrorView};
use crate::ids::{law_id_text_parses_back, uuid_text, uuid_value};
use crate::repository::account_repository::{
    found, law_lock_order_is_unique, smallest_missing, AccountQuery, AccountRepository,
    BalanceChange, BalanceUpdate, OptimisticUpdate,
};
use crate::repository::idempotency_repository::{
    IdempotencyRecord, IdempotencyRepository, KeyClaim,
};
use crate::repository::page::{count_or_zero, cut, limit_of, token_to_id};
use crate::repository::transaction_repository::{TransactionQuery, TransactionRepository};

verus! {

/// A key that is taken stays what it is: what is stored under it is handed out, whatever is to be
/// stored and whenever.
pub proof fn law_taken_keys_stay_taken(
    record: IdempotencyRecord,
    key: &str,
    resource_type: &str,
    resource_id: u128,
    response_data: Option<String>,
    now: DateTime,
    at: Result<KeyClaim, Overflow>,
    r: Result<KeyClaim, Overflow>,
)
    requires
        call_ensures(
            IdempotencyRepository::check_and_set_at,
            (Some(record), key, resource_type, resource_id, response_data, now),
            at,
        ),
        call_ensures(
            IdempotencyRepository::check_and_set,
            (Some(record), key, resource_type, resource_id, response_data),
            r,
        ),
    ensures
        at matches Ok(KeyClaim::Taken(t)) && t == record,
        r matches Ok(KeyClaim::Taken(t)) && t == record,
{
}

/// A key that is free is taken for what is to be stored under it, for 24 hours, at any time that
/// the calendar has another day after.
pub proof fn law_free_keys_are_taken_for_a_day(
    key: &str,
    resource_type: &str,
    resource_id: u128,
    response_data: Option<String>,
    now: DateTime,
    r: Result<KeyClaim, Overflow>,
)
    requires
        call_ensures(
            IdempotencyRepository::check_and_set_at,
            (None, key, resource_type, resource_id, response_data, now),
            r,
        ),
        MIN_SECONDS <= now.seconds <= MAX_SECONDS - 24 * 60 * 60,
        now.nanos < 1_000_000_000,
    ensures
        r matches Ok(KeyClaim::Insert(new)) && {
            &&& new.record.key@ == key@
            &&& new.record.resource_type@ == resource_type@
            &&& new.record.resource_id == resource_id
            &&& new.record.response_data == response_data
            &&& new.expires_at.seconds == now.seconds + 24 * 60 * 60
            &&& new.expires_at.nanos == now.nanos
        },
{
}

/// The same is stored for a key that is taken now.
pub proof fn law_free_keys_are_taken_now(
    key: &str,
    resource_type: &str,
    resource_id: u128,
    response_data: Option<String>,
    r: Result<KeyClaim, Overflow>,
)
    requires
        call_ensures(
            IdempotencyRepository::check_and_set,
            (None, key, resource_type, resource_id, response_data),
            r,
        ),
    ensures
        r matches Ok(claim) ==> (claim matches KeyClaim::Insert(new) && {
            &&& new.record.key@ == key@
            &&& new.record.resource_type@ == resource_type@
            &&& new.record.resource_id == resource_id
            &&& new.record.response_data == response_data
            &&& 24 * 60 * 60 <= new.expires_at.seconds <= MAX_SECONDS
        }),
{
}

/// A point in time so many hours later is that many hours later, to the nanosecond, and there is
/// none where the calendar ends before.
pub proof fn law_hours_are_added(t: DateTime, hours: i64, r: Option<DateTime>)
    requires
        call_ensures(add_hours, (t, hours), r),
        0 < hours <= 1_000_000,
        MIN_SECONDS <= t.seconds <= MAX_SECONDS,
        t.nanos < 1_000_000_000,
    ensures
        r is Some <==> t.seconds + hours * 60 * 60 <= MAX_SECONDS,
        r matches Some(later) ==> later.seconds - t.seconds == hours * 60 * 60 && later.nanos
            == t.nanos,
{
}

/// A point in time is the one that its seconds and nanoseconds name.
pub proof fn law_times_are_the_ones_named(seconds: i64, nanos: u32, r: Option<DateTime>)
    requires
        call_ensures(from_timestamp, (seconds, nanos), r),
    ensures
        r matches Some(t) ==> t.seconds == seconds && t.nanos == nanos,
        MIN_SECONDS <= seconds <= MAX_SECONDS && nanos < 1_000_000_000 ==> r is Some,
        !(MIN_SECONDS <= seconds <= MAX_SECONDS) || nanos >= 2_000_000_000 ==> r is None,
{
}

/// Accounts are locked in ascending order of their ids, each as often as it is named, and so in
/// the same order however they are named.
pub proof fn law_locks_are_taken_in_order(
    ids: Vec<u128>,
    order: Vec<u128>,
    others: Vec<u128>,
    other_order: Vec<u128>,
)
    requires
        call_ensures(AccountRepository::lock_order, (&ids,), order),
        call_ensures(AccountRepository::lock_order, (&others,), other_order),
    ensures
        forall|i: int, j: int| 0 <= i <= j < order.len() ==> order@[i] <= order@[j],
        forall|id: u128| #[trigger]
            order@.to_multiset().count(id) == ids@.to_multiset().count(id),
        order.len() == ids.len(),
        ids@.to_multiset() == others@.to_multiset() ==> order@ == other_order@,
{
    ids@.to_multiset_ensures();
    order@.to_multiset_ensures();
    assert(order@.to_multiset().len() == ids@.to_multiset().len());
    if ids@.to_multiset() == others@.to_multiset() {
        law_lock_order_is_unique(order@, other_order@);
    }
}

/// The accounts that were locked are handed on as they are. Where their number is not that of the
/// ids, an id without an account is an error that names the smallest such id; where every id has
/// its account, there is no error.
pub proof fn law_locked_accounts_are_handed_on(
    rows: Vec<Account>,
    ids: Vec<u128>,
    r: Result<Vec<Account>, LedgerError>,
)
    requires
        call_ensures(AccountRepository::get_multiple_for_update, (rows, &ids), r),
    ensures
        r matches Ok(accounts) ==> accounts@ == rows@,
        rows.len() == ids.len() ==> r is Ok,
        (forall|i: int|
            0 <= i < ids.len() ==> has_row(rows@, #[trigger] ids@[i])) ==> r is Ok,
        r matches Err(e) ==> (e matches LedgerError::AccountNotFound(text) && exists|i: int|
            {
                &&& 0 <= i < ids.len()
                &&& uuid_value(text@) == Some(#[trigger] ids@[i])
                &&& !has_row(rows@, ids@[i])
                &&& forall|j: int|
                    0 <= j < ids.len() && !has_row(rows@, #[trigger] ids@[j]) ==> ids@[i]
                        <= ids@[j]
            }),
        rows.len() != ids.len() && !(forall|i: int|
            0 <= i < ids.len() ==> has_row(rows@, #[trigger] ids@[i])) ==> r is Err,
{
    if r is Ok {
        if rows.len() != ids.len() {
            assert(forall|id: u128| #[trigger] ids@.contains(id) ==> found(rows@, id));
            assert forall|i: int| 0 <= i < ids.len() implies has_row(rows@, #[trigger] ids@[i]) by {
                assert(ids@.contains(ids@[i]));
                assert(found(rows@, ids@[i]));
            }
        }
    } else {
        let e = r->Err_0;
        let id = choose|id: u128|
            {
                &&& #[trigger] smallest_missing(ids@, rows@, id)
                &&& e@ == LedgerErrorView::AccountNotFound(uuid_text(id))
            };
        law_id_text_parses_back(id);
        let i = choose|i: int| 0 <= i < ids.len() && ids@[i] == id;
        assert(!has_row(rows@, ids@[i]));
        assert forall|j: int|
            0 <= j < ids.len() && !has_row(rows@, #[trigger] ids@[j]) implies ids@[i]
            <= ids@[j] by {
            assert(ids@.contains(ids@[j]));
        }
    }
}

/// Whether one of the rows is that of the account with this id.
pub open spec fn has_row(rows: Seq<Account>, id: u128) -> bool {
    exists|k: int| 0 <= k < rows.len() && (#[trigger] rows[k]).id == id
}

/// An update of a balance is one of the account and to the balance that are given. The one at a
/// version is to happen at that version only, and the one of a locked row at any.
pub proof fn law_updates_are_of_the_account_and_balance_given(
    id: u128,
    balance: Decimal,
    version: i64,
    locked: BalanceUpdate,
    at: BalanceUpdate,
)
    requires
        call_ensures(AccountRepository::update_balance_locked, (id, balance), locked),
        call_ensures(AccountRepository::balance_update_at, (id, balance, version), at),
    ensures
        locked.id == id && at.id == id,
        locked.new_balance == balance && at.new_balance == balance,
        locked.expected_version is None,
        at.expected_version == Some(version),
{
}

/// An update at a version succeeds exactly where it was made. Otherwise the error names the
/// account, and the two versions where the account is there with another one.
pub proof fn law_what_an_update_at_a_version_amounts_to(
    id: u128,
    version: i64,
    outcome: OptimisticUpdate,
    r: Result<(), LedgerError>,
)
    requires
        call_ensures(
            AccountRepository::update_balance_optimistic,
            (id, version, outcome),
            r,
        ),
    ensures
        r is Ok <==> outcome is Updated,
        outcome matches OptimisticUpdate::Refused(Some(current)) ==> (r matches Err(
            LedgerError::OptimisticLockError { account_id, expected_version, actual_version },
        ) && uuid_value(account_id@) == Some(id) && expected_version == version && actual_version
            == current),
        outcome matches OptimisticUpdate::Refused(None) ==> (r matches Err(
            LedgerError::AccountNotFound(text),
        ) && uuid_value(text@) == Some(id)),
{
    law_id_text_parses_back(id);
}

/// The row of a change of balance has what is given for it, and the change is what lies between
/// the balances. Both ways of making it agree, and it is refused exactly where the change is out
/// of range.
pub proof fn law_changes_of_balance_are_recorded(
    account_id: u128,
    entry_id: u128,
    previous: Decimal,
    new: Decimal,
    before: i64,
    after: i64,
    checked: Result<BalanceChange, Overflow>,
    row: BalanceChange,
    change: Option<Decimal>,
)
    requires
        call_ensures(
            AccountRepository::checked_record_balance_history,
            (account_id, entry_id, previous, new, before, after),
            checked,
        ),
        call_ensures(Decimal::checked_sub, (new, previous), change),
        change is Some ==> call_ensures(
            AccountRepository::record_balance_history,
            (account_id, entry_id, previous, new, before, after),
            row,
        ),
    ensures
        checked is Ok <==> change is Some,
        checked matches Ok(r) ==> {
            &&& r == row
            &&& r.account_id == account_id
            &&& r.entry_id == entry_id
            &&& r.previous_balance == previous
            &&& r.new_balance == new
            &&& Some(r.change_amount) == change
            &&& r.version_before == before
            &&& r.version_after == after
        },
{
}

/// What is asked for is what is fetched: the filters are those given, the page starts behind the
/// token where it is an id, and one row more than the page holds is fetched.
pub proof fn law_queries_have_the_filters_given(
    page_size: i32,
    token: Option<&str>,
    account_type: Option<AccountType>,
    account_status: Option<AccountStatus>,
    currency: Option<&str>,
    accounts: AccountQuery,
    account_id: Option<u128>,
    status: Option<TransactionStatus>,
    from: Option<DateTime>,
    to: Option<DateTime>,
    transactions: TransactionQuery,
    limit: i32,
    after: Option<u128>,
)
    requires
        call_ensures(
            AccountRepository::list,
            (page_size, token, account_type, account_status, currency),
            accounts,
        ),
        call_ensures(
            TransactionRepository::list,
            (page_size, token, account_id, status, from, to),
            transactions,
        ),
        call_ensures(limit_of, (page_size,), limit),
        call_ensures(token_to_id, (token,), after),
    ensures
        token is None ==> after is None,
        token matches Some(t) ==> after == uuid_value(t@),
        1 <= limit <= 100,
        1 <= page_size <= 100 ==> limit == page_size,
        page_size > 100 ==> limit == 100,
        page_size < 1 ==> limit == 1,
        accounts.after == after,
        accounts.filter.account_type == account_type,
        accounts.filter.status == account_status,
        accounts.filter.currency is Some <==> currency is Some,
        accounts.filter.currency matches Some(c) ==> currency matches Some(given) && c@ == given@,
        accounts.max_rows == limit + 1,
        transactions.before == after,
        transactions.filter.account_id == account_id,
        transactions.filter.status == status,
        transactions.filter.from_date == from,
        transactions.filter.to_date == to,
        transactions.max_rows == limit + 1,
{
}

/// A page has the first rows that were fetched, up to its limit, in their order. There is a next
/// page exactly where more rows were fetched, and its token is the id of the last row of the page.
pub proof fn law_pages_are_cut_at_the_limit(
    page_size: i32,
    limit: i32,
    rows: Vec<Account>,
    total: Option<i32>,
    page: (Vec<Account>, Option<String>, i32),
    cut_off: (Vec<Account>, bool),
    count: i32,
)
    requires
        call_ensures(limit_of, (page_size,), limit),
        call_ensures(AccountRepository::list_page, (page_size, rows, total), page),
        call_ensures(cut::<Account>, (page_size, rows), cut_off),
        call_ensures(count_or_zero, (total,), count),
    ensures
        page.0.len() == if rows.len() > limit {
            limit as int
        } else {
            rows.len() as int
        },
        forall|i: int| 0 <= i < page.0.len() ==> #[trigger] page.0@[i] == rows@[i],
        page.1 is Some <==> rows.len() > limit,
        page.1 matches Some(token) ==> uuid_value(token@) == Some(rows@[limit - 1].id),
        page.2 == count,
        total matches Some(n) ==> count == n,
        total is None ==> count == 0,
        cut_off.0@ == page.0@,
        cut_off.1 <==> rows.len() > limit,
{
}

} // verus!
