//! Posting a transaction: which requests are posted, why others are not, and what posting does to
//! the accounts.
use vstd::prelude::*;

use crate::decimal::{decimal_parse, decimal_text, Decimal};
use crate::domain::account::Account;
use crate::domain::entry::CreateEntryParams;
use crate::error::{LedgerError, LedgerErrorView};
use crate::ids::{law_id_text_parses_back, uuid_text, uuid_value};
use crate::proto;
use crate::repository::account_repository::{found, smallest_missing};
use crate::service::ledger_service::LedgerServiceImpl;
use crate::service::posting::{
    account_ids, account_missing, accounts_by_id, entry_refusal, first_refusal,
    version_conflict, versions_asked_for, AuthorizedPosting, PendingPosting, PostLookup, PostStep,
};

verus! {

/// Whether the row at `k` is the one that counts for the account with this id: no later row has
/// the same id.
pub open spec fn row_of(rows: Seq<Account>, k: int, id: u128) -> bool {
    &&& 0 <= k < rows.len()
    &&& rows[k].id == id
    &&& forall|j: int| k < j < rows.len() ==> (#[trigger] rows[j]).id != id
}

/// Whether the pair at `i` gives the version that is expected of the account with this id: its
/// key denotes that id, and no later pair's key does.
pub open spec fn expects(pairs: Seq<(String, i64)>, i: int, id: u128) -> bool {
    &&& 0 <= i < pairs.len()
    &&& uuid_value(pairs[i].0@) == Some(id)
    &&& forall|j: int|
        i < j < pairs.len() ==> uuid_value((#[trigger] pairs[j]).0@) != Some(id)
}

/// Whether a request has become a posting that waits for its accounts: nothing was stored under
/// its key.
pub open spec fn waits(
    req: proto::PostTransactionRequest,
    lookup: PostLookup,
    pending: PendingPosting,
) -> bool {
    &&& call_ensures(LedgerServiceImpl::post_transaction, (req,), Ok(lookup))
    &&& call_ensures(PostLookup::found, (lookup, None), Ok(Ok(PostStep::Lock(pending))))
}

/// Whether an entry of a request is on the account of the row at `k`.
pub open spec fn on_row(e: proto::EntryRequest, rows: Seq<Account>, k: int) -> bool {
    0 <= k < rows.len() && uuid_value(e.account_id@) == Some(rows[k].id) && row_of(
        rows,
        k,
        rows[k].id,
    )
}

/// Whether an entry of a request asks for more than the account has available: it is a debit on
/// an asset or expense account, of more than the available balance.
pub open spec fn overdraws(e: proto::EntryRequest, a: Account) -> bool {
    &&& e.entry_type == 1
    &&& a.account_type is Asset || a.account_type is Expense
    &&& e.amount matches Some(m) && decimal_parse(m.value@) matches Some(amount) && amount.units()
        > a.available_balance.units()
}

/// Whether an account lets an entry of a request be posted: it is active, and the entry does not
/// overdraw it.
pub open spec fn lets(e: proto::EntryRequest, a: Account) -> bool {
    a.status is Active && !overdraws(e, a)
}

/// Whether the account of an entry of a request is among the rows and lets it be posted.
pub open spec fn is_let(e: proto::EntryRequest, rows: Seq<Account>) -> bool {
    exists|k: int| #[trigger] on_row(e, rows, k) && lets(e, rows[k])
}

/// The rows by the ids of their accounts.
pub proof fn lemma_rows(rows: Seq<Account>, id: u128)
    ensures
        accounts_by_id(rows).contains_key(id) ==> exists|k: int| #[trigger] row_of(rows, k, id),
        forall|k: int| #[trigger]
            row_of(rows, k, id) ==> accounts_by_id(rows).contains_key(id) && accounts_by_id(
                rows,
            )[id] == rows[k],
        found(rows, id) <==> accounts_by_id(rows).contains_key(id),
    decreases rows.len(),
{
    if rows.len() > 0 {
        let before = rows.drop_last();
        let last = rows[rows.len() - 1];
        lemma_rows(before, id);
        if last.id == id {
            assert(row_of(rows, rows.len() - 1, id));
        } else if accounts_by_id(before).contains_key(id) {
            let k = choose|k: int| #[trigger] row_of(before, k, id);
            assert forall|j: int| k < j < rows.len() implies (#[trigger] rows[j]).id != id by {
                if j < before.len() {
                    assert(before[j].id != id);
                }
            }
            assert(row_of(rows, k, id));
        }
        assert forall|k: int| #[trigger] row_of(rows, k, id) implies accounts_by_id(
            rows,
        ).contains_key(id) && accounts_by_id(rows)[id] == rows[k] by {
            if k < before.len() {
                assert(last.id != id);
                assert forall|j: int| k < j < before.len() implies (#[trigger] before[j]).id
                    != id by {
                    assert(rows[j].id != id);
                }
                assert(row_of(before, k, id));
            }
        }
        if found(before, id) {
            let k = choose|k: int| 0 <= k < before.len() && (#[trigger] before[k]).id == id;
            assert(rows[k].id == id);
        }
        if found(rows, id) && last.id != id {
            let k = choose|k: int| 0 <= k < rows.len() && (#[trigger] rows[k]).id == id;
            assert(before[k].id == id);
        }
    }
}

proof fn lemma_expected(pairs: Seq<(String, i64)>, id: u128)
    ensures
        versions_asked_for(pairs).contains_key(id) ==> exists|i: int| #[trigger]
            expects(pairs, i, id),
        forall|i: int| #[trigger]
            expects(pairs, i, id) ==> versions_asked_for(pairs).contains_key(id)
                && versions_asked_for(pairs)[id] == pairs[i].1,
    decreases pairs.len(),
{
    if pairs.len() > 0 {
        let before = pairs.drop_last();
        let last = pairs[pairs.len() - 1];
        lemma_expected(before, id);
        if uuid_value(last.0@) == Some(id) {
            assert(expects(pairs, pairs.len() - 1, id));
        } else if versions_asked_for(before).contains_key(id) {
            let i = choose|i: int| #[trigger] expects(before, i, id);
            assert forall|j: int| i < j < pairs.len() implies uuid_value((#[trigger] pairs[j]).0@)
                != Some(id) by {
                if j < before.len() {
                    assert(uuid_value(before[j].0@) != Some(id));
                }
            }
            assert(expects(pairs, i, id));
        }
        assert forall|i: int| #[trigger] expects(pairs, i, id) implies versions_asked_for(
            pairs,
        ).contains_key(id) && versions_asked_for(pairs)[id] == pairs[i].1 by {
            if i < before.len() {
                assert(uuid_value(last.0@) != Some(id));
                assert forall|j: int| i < j < before.len() implies uuid_value(
                    (#[trigger] before[j]).0@,
                ) != Some(id) by {
                    assert(uuid_value(pairs[j].0@) != Some(id));
                }
                assert(expects(before, i, id));
            }
        }
    }
}

proof fn lemma_first_refusal(accounts: Map<u128, Account>, entries: Seq<CreateEntryParams>)
    ensures
        first_refusal(accounts, entries) matches Some(e) ==> exists|i: int|
            {
                &&& 0 <= i < entries.len()
                &&& entry_refusal(accounts, #[trigger] entries[i]) == Some(e)
                &&& forall|j: int|
                    0 <= j < i ==> entry_refusal(accounts, #[trigger] entries[j]) is None
            },
        first_refusal(accounts, entries) is None ==> forall|i: int|
            0 <= i < entries.len() ==> entry_refusal(accounts, #[trigger] entries[i]) is None,
    decreases entries.len(),
{
    if entries.len() > 0 {
        let before = entries.drop_last();
        lemma_first_refusal(accounts, before);
        if let Some(e) = first_refusal(accounts, entries) {
            if first_refusal(accounts, before) is Some {
                let i = choose|i: int|
                    {
                        &&& 0 <= i < before.len()
                        &&& entry_refusal(accounts, #[trigger] before[i]) == Some(e)
                        &&& forall|j: int|
                            0 <= j < i ==> entry_refusal(accounts, #[trigger] before[j]) is None
                    };
                assert(entry_refusal(accounts, entries[i]) == Some(e));
                assert forall|j: int| 0 <= j < i implies entry_refusal(
                    accounts,
                    #[trigger] entries[j],
                ) is None by {
                    assert(entry_refusal(accounts, before[j]) is None);
                }
            } else {
                let n = entries.len() - 1;
                assert(entry_refusal(accounts, entries[n]) == Some(e));
                assert forall|j: int| 0 <= j < n implies entry_refusal(
                    accounts,
                    #[trigger] entries[j],
                ) is None by {
                    assert(entry_refusal(accounts, before[j]) is None);
                }
            }
        } else {
            assert forall|i: int| 0 <= i < entries.len() implies entry_refusal(
                accounts,
                #[trigger] entries[i],
            ) is None by {
                if i < before.len() {
                    assert(entry_refusal(accounts, before[i]) is None);
                }
            }
        }
    }
}

/// What an entry of a request is refused for, in terms of its account's row.
proof fn lemma_refusal_of_entry(
    req: proto::PostTransactionRequest,
    lookup: PostLookup,
    pending: PendingPosting,
    rows: Seq<Account>,
    i: int,
)
    requires
        waits(req, lookup, pending),
        0 <= i < req.entries.len(),
    ensures
        pending@.entries.len() == req.entries.len(),
        uuid_value(req.entries@[i].account_id@) == Some(pending@.entries[i].account_id),
        accounts_by_id(rows).contains_key(pending@.entries[i].account_id) ==> exists|k: int|
            #[trigger] on_row(req.entries@[i], rows, k),
        forall|k: int| #[trigger]
            on_row(req.entries@[i], rows, k) ==> {
                &&& accounts_by_id(rows).contains_key(pending@.entries[i].account_id)
                &&& accounts_by_id(rows)[pending@.entries[i].account_id] == rows[k]
                &&& rows[k].id == pending@.entries[i].account_id
                &&& entry_refusal(accounts_by_id(rows), pending@.entries[i]) is None <==> lets(
                    req.entries@[i],
                    rows[k],
                )
            },
{
    let e = pending@.entries[i];
    lemma_rows(rows, e.account_id);
    if accounts_by_id(rows).contains_key(e.account_id) {
        let k = choose|k: int| #[trigger] row_of(rows, k, e.account_id);
        assert(on_row(req.entries@[i], rows, k));
    }
}

/// Every entry of a posted transaction has its account, and the account lets it be posted: it is
/// active, and no debit on an asset or expense account is of more than it has available.
pub proof fn law_posted_entries_are_let(
    req: proto::PostTransactionRequest,
    lookup: PostLookup,
    pending: PendingPosting,
    rows: Vec<Account>,
    authorized: AuthorizedPosting,
    i: int,
)
    requires
        waits(req, lookup, pending),
        call_ensures(PendingPosting::locked, (pending, rows), Ok(authorized)),
        0 <= i < req.entries.len(),
    ensures
        is_let(req.entries@[i], rows@),
{
    lemma_first_refusal(accounts_by_id(rows@), pending@.entries);
    lemma_refusal_of_entry(req, lookup, pending, rows@, i);
    assert(entry_refusal(accounts_by_id(rows@), pending@.entries[i]) is None);
    let k = choose|k: int| #[trigger] on_row(req.entries@[i], rows@, k);
    assert(on_row(req.entries@[i], rows@, k));
}

/// Every expected version counts: a transaction is posted only if each pair of the request whose
/// key denotes an account that is locked, and that no later pair names again, gives the version
/// that the account has.
pub proof fn law_every_expected_version_counts(
    req: proto::PostTransactionRequest,
    lookup: PostLookup,
    pending: PendingPosting,
    rows: Vec<Account>,
    authorized: AuthorizedPosting,
    id: u128,
    i: int,
    k: int,
)
    requires
        waits(req, lookup, pending),
        call_ensures(PendingPosting::locked, (pending, rows), Ok(authorized)),
        expects(req.expected_versions@, i, id),
        row_of(rows@, k, id),
    ensures
        rows@[k].version == req.expected_versions@[i].1,
{
    lemma_expected(req.expected_versions@, id);
    lemma_rows(rows@, id);
    assert(!version_conflict(pending@.versions, accounts_by_id(rows@), id));
}

/// A posting is refused only for the reasons that there are: where the account of every entry is
/// there and active, no debit on an asset or expense account is of more than it has available, and
/// every account has the version that is expected of it, the posting is let through. So a credit
/// on an active account is never refused, whatever the type, the amount and the balance.
pub proof fn law_nothing_else_refuses_a_posting(
    req: proto::PostTransactionRequest,
    lookup: PostLookup,
    pending: PendingPosting,
    rows: Vec<Account>,
    r: Result<AuthorizedPosting, LedgerError>,
)
    requires
        waits(req, lookup, pending),
        call_ensures(PendingPosting::locked, (pending, rows), r),
        forall|i: int| 0 <= i < req.entries.len() ==> is_let(#[trigger] req.entries@[i], rows@),
        forall|id: u128, i: int, k: int|
            #![trigger expects(req.expected_versions@, i, id), row_of(rows@, k, id)]
            expects(req.expected_versions@, i, id) && row_of(rows@, k, id) ==> rows@[k].version
                == req.expected_versions@[i].1,
    ensures
        r is Ok,
{
    let accounts = accounts_by_id(rows@);
    let entries = pending@.entries;
    assert forall|i: int| 0 <= i < entries.len() implies accounts.contains_key(
        (#[trigger] entries[i]).account_id,
    ) && entry_refusal(accounts, entries[i]) is None by {
        lemma_refusal_of_entry(req, lookup, pending, rows@, i);
        assert(is_let(req.entries@[i], rows@));
        let k = choose|k: int| #[trigger]
            on_row(req.entries@[i], rows@, k) && lets(req.entries@[i], rows@[k]);
        assert(on_row(req.entries@[i], rows@, k));
    }
    lemma_first_refusal(accounts, entries);
    assert(first_refusal(accounts, entries) is None);
    assert(!account_missing(entries, rows@)) by {
        if account_missing(entries, rows@) {
            let id = choose|id: u128| #[trigger]
                account_ids(entries).contains(id) && !found(rows@, id);
            let i = choose|i: int|
                0 <= i < account_ids(entries).len() && account_ids(entries)[i] == id;
            assert(accounts.contains_key(entries[i].account_id));
            lemma_rows(rows@, id);
        }
    }
    assert forall|id: u128| !(#[trigger] version_conflict(pending@.versions, accounts, id)) by {
        if version_conflict(pending@.versions, accounts, id) {
            lemma_expected(req.expected_versions@, id);
            lemma_rows(rows@, id);
            let i = choose|i: int| #[trigger] expects(req.expected_versions@, i, id);
            let k = choose|k: int| #[trigger] row_of(rows@, k, id);
            assert(expects(req.expected_versions@, i, id) && row_of(rows@, k, id));
        }
    }
}

/// Whether the entry at `i` is the first that an account does not let through, and the row at `k`
/// is that account.
pub open spec fn first_not_let(
    entries: Seq<proto::EntryRequest>,
    rows: Seq<Account>,
    i: int,
    k: int,
) -> bool {
    &&& 0 <= i < entries.len()
    &&& on_row(entries[i], rows, k)
    &&& !lets(entries[i], rows[k])
    &&& forall|j: int| 0 <= j < i ==> is_let(#[trigger] entries[j], rows)
}

/// Whether the entry at `i` is on an account that is not there.
pub open spec fn without_row(
    entries: Seq<proto::EntryRequest>,
    rows: Seq<Account>,
    i: int,
) -> bool {
    &&& 0 <= i < entries.len()
    &&& forall|k: int| !(#[trigger] on_row(entries[i], rows, k))
}

/// Why a posting is refused, and what the error says: an account that is not there, one that has
/// another version than the request expects, one that is frozen or closed, or one that is
/// overdrawn by a debit. The error names the account, the versions, and the amounts.
pub proof fn law_refused_postings_are_told_why(
    req: proto::PostTransactionRequest,
    lookup: PostLookup,
    pending: PendingPosting,
    rows: Vec<Account>,
    e: LedgerError,
)
    requires
        waits(req, lookup, pending),
        call_ensures(PendingPosting::locked, (pending, rows), Err(e)),
    ensures
        match e {
            LedgerError::AccountNotFound(text) => exists|i: int|
                {
                    &&& #[trigger] without_row(req.entries@, rows@, i)
                    &&& uuid_value(text@) == uuid_value(req.entries@[i].account_id@)
                    &&& rows.len() == req.entries.len() ==> forall|j: int|
                        0 <= j < i ==> is_let(#[trigger] req.entries@[j], rows@)
                },
            LedgerError::OptimisticLockError {
                account_id,
                expected_version,
                actual_version,
            } => exists|id: u128, i: int, k: int|
                {
                    &&& #[trigger] expects(req.expected_versions@, i, id)
                    &&& #[trigger] row_of(rows@, k, id)
                    &&& uuid_value(account_id@) == Some(id)
                    &&& expected_version == req.expected_versions@[i].1
                    &&& actual_version == rows@[k].version
                    &&& actual_version != expected_version
                },
            LedgerError::AccountFrozen(text) => exists|i: int, k: int|
                {
                    &&& #[trigger] first_not_let(req.entries@, rows@, i, k)
                    &&& rows@[k].status is Frozen
                    &&& uuid_value(text@) == Some(rows@[k].id)
                },
            LedgerError::AccountClosed(text) => exists|i: int, k: int|
                {
                    &&& #[trigger] first_not_let(req.entries@, rows@, i, k)
                    &&& rows@[k].status is Closed
                    &&& uuid_value(text@) == Some(rows@[k].id)
                },
            LedgerError::InsufficientBalance { account_id, required, available } => exists|
                i: int,
                k: int,
            |
                {
                    &&& #[trigger] first_not_let(req.entries@, rows@, i, k)
                    &&& rows@[k].status is Active
                    &&& overdraws(req.entries@[i], rows@[k])
                    &&& uuid_value(account_id@) == Some(rows@[k].id)
                    &&& writes_amount(required@, decimal_parse(
                        req.entries@[i].amount.unwrap().value@,
                    ).unwrap())
                    &&& writes_amount(available@, rows@[k].available_balance)
                },
            _ => false,
        },
{
    let accounts = accounts_by_id(rows@);
    let entries = pending@.entries;
    if account_missing(entries, rows@) {
        let id = choose|id: u128|
            {
                &&& #[trigger] smallest_missing(account_ids(entries), rows@, id)
                &&& e@ == LedgerErrorView::AccountNotFound(uuid_text(id))
            };
        law_id_text_parses_back(id);
        let i = choose|i: int| 0 <= i < account_ids(entries).len() && account_ids(entries)[i] == id;
        assert(0 <= i < entries.len());
        lemma_missing(req, lookup, pending, rows@, i);
    } else if exists|id: u128| #[trigger] version_conflict(pending@.versions, accounts, id) {
        let id = choose|id: u128|
            {
                &&& #[trigger] version_conflict(pending@.versions, accounts, id)
                &&& e@ == (LedgerErrorView::OptimisticLockError {
                    account_id: uuid_text(id),
                    expected_version: pending@.versions[id],
                    actual_version: accounts[id].version,
                })
            };
        law_id_text_parses_back(id);
        lemma_expected(req.expected_versions@, id);
        lemma_rows(rows@, id);
        let i = choose|i: int| #[trigger] expects(req.expected_versions@, i, id);
        let k = choose|k: int| #[trigger] row_of(rows@, k, id);
        assert(expects(req.expected_versions@, i, id) && row_of(rows@, k, id));
    } else {
        lemma_first_refusal(accounts, entries);
        let i = choose|i: int|
            {
                &&& 0 <= i < entries.len()
                &&& entry_refusal(accounts, #[trigger] entries[i]) == Some(e@)
                &&& forall|j: int|
                    0 <= j < i ==> entry_refusal(accounts, #[trigger] entries[j]) is None
            };
        law_id_text_parses_back(entries[i].account_id);
        lemma_refusal_of_entry(req, lookup, pending, rows@, i);
        lemma_rows(rows@, entries[i].account_id);
        assert forall|j: int| 0 <= j < i implies is_let(#[trigger] req.entries@[j], rows@) by {
            assert(entry_refusal(accounts, entries[j]) is None);
            lemma_refusal_of_entry(req, lookup, pending, rows@, j);
            let n = choose|n: int| #[trigger] on_row(req.entries@[j], rows@, n);
            assert(on_row(req.entries@[j], rows@, n) && lets(req.entries@[j], rows@[n]));
        }
        if accounts.contains_key(entries[i].account_id) {
            let k = choose|k: int| #[trigger] on_row(req.entries@[i], rows@, k);
            assert(first_not_let(req.entries@, rows@, i, k));
        } else {
            lemma_missing(req, lookup, pending, rows@, i);
        }
    }
}

/// What comes first where a posting is refused for several reasons. Where fewer or more rows come
/// than there are entries, an account that is not there comes before all else, and of several of
/// them the one with the smallest id. Otherwise a version that is not the expected one comes first,
/// and then the first entry that may not be posted.
pub proof fn law_what_a_posting_is_refused_for_first(
    req: proto::PostTransactionRequest,
    lookup: PostLookup,
    pending: PendingPosting,
    rows: Vec<Account>,
    r: Result<AuthorizedPosting, LedgerError>,
)
    requires
        waits(req, lookup, pending),
        call_ensures(PendingPosting::locked, (pending, rows), r),
    ensures
        (rows.len() != req.entries.len() && exists|i: int| #[trigger]
            without_row(req.entries@, rows@, i)) ==> (r matches Err(
            LedgerError::AccountNotFound(text),
        ) && uuid_value(text@) matches Some(id) && forall|i: int| #[trigger]
            without_row(req.entries@, rows@, i) ==> uuid_value(req.entries@[i].account_id@).unwrap()
                >= id),
        (exists|id: u128, i: int, k: int|
            {
                &&& #[trigger] expects(req.expected_versions@, i, id)
                &&& #[trigger] row_of(rows@, k, id)
                &&& rows@[k].version != req.expected_versions@[i].1
            }) && (rows.len() == req.entries.len() || !(exists|i: int| #[trigger]
            without_row(req.entries@, rows@, i))) ==> (r matches Err(e)
            && e is OptimisticLockError),
{
    let accounts = accounts_by_id(rows@);
    let entries = pending@.entries;
    assert(entries.len() == req.entries.len());
    assert forall|i: int| #[trigger] without_row(req.entries@, rows@, i) implies {
        &&& account_ids(entries).contains(entries[i].account_id)
        &&& !found(rows@, entries[i].account_id)
        &&& uuid_value(req.entries@[i].account_id@) == Some(entries[i].account_id)
    } by {
        lemma_refusal_of_entry(req, lookup, pending, rows@, i);
        lemma_rows(rows@, entries[i].account_id);
        assert(account_ids(entries)[i] == entries[i].account_id);
    }
    if rows.len() != req.entries.len() && exists|i: int| #[trigger]
        without_row(req.entries@, rows@, i) {
        let i = choose|i: int| #[trigger] without_row(req.entries@, rows@, i);
        assert(account_ids(entries).contains(entries[i].account_id));
        assert(account_missing(entries, rows@));
        let e = r->Err_0;
        let id = choose|id: u128|
            {
                &&& #[trigger] smallest_missing(account_ids(entries), rows@, id)
                &&& e@ == LedgerErrorView::AccountNotFound(uuid_text(id))
            };
        law_id_text_parses_back(id);
    }
    if (exists|id: u128, i: int, k: int|
        {
            &&& #[trigger] expects(req.expected_versions@, i, id)
            &&& #[trigger] row_of(rows@, k, id)
            &&& rows@[k].version != req.expected_versions@[i].1
        }) && (rows.len() == req.entries.len() || !(exists|i: int| #[trigger]
        without_row(req.entries@, rows@, i))) {
        let (id, i, k) = choose|id: u128, i: int, k: int|
            {
                &&& #[trigger] expects(req.expected_versions@, i, id)
                &&& #[trigger] row_of(rows@, k, id)
                &&& rows@[k].version != req.expected_versions@[i].1
            };
        lemma_expected(req.expected_versions@, id);
        lemma_rows(rows@, id);
        assert(version_conflict(pending@.versions, accounts, id));
        assert(!account_missing(entries, rows@)) by {
            if account_missing(entries, rows@) {
                let missing = choose|missing: u128| #[trigger]
                    account_ids(entries).contains(missing) && !found(rows@, missing);
                let n = choose|n: int|
                    0 <= n < account_ids(entries).len() && account_ids(entries)[n] == missing;
                lemma_missing(req, lookup, pending, rows@, n);
            }
        }
    }
}

/// The accounts of the entries are locked in ascending order of their ids: as many as there are
/// entries, the account of every entry among them, and no others.
pub proof fn law_the_accounts_of_the_entries_are_locked(
    req: proto::PostTransactionRequest,
    lookup: PostLookup,
    pending: PendingPosting,
    order: Vec<u128>,
)
    requires
        waits(req, lookup, pending),
        call_ensures(PendingPosting::lock_order, (&pending,), order),
    ensures
        order.len() == req.entries.len(),
        forall|i: int, j: int| 0 <= i <= j < order.len() ==> order@[i] <= order@[j],
        forall|i: int|
            0 <= i < req.entries.len() ==> exists|j: int|
                0 <= j < order.len() && Some(#[trigger] order@[j]) == uuid_value(
                    (#[trigger] req.entries@[i]).account_id@,
                ),
        forall|j: int|
            0 <= j < order.len() ==> exists|i: int|
                0 <= i < req.entries.len() && Some(#[trigger] order@[j]) == uuid_value(
                    (#[trigger] req.entries@[i]).account_id@,
                ),
{
    let entries = pending@.entries;
    let ids = account_ids(entries);
    ids.to_multiset_ensures();
    order@.to_multiset_ensures();
    assert(ids.to_multiset().len() == order@.to_multiset().len());
    assert forall|i: int| 0 <= i < req.entries.len() implies exists|j: int|
        0 <= j < order.len() && Some(#[trigger] order@[j]) == uuid_value(
            (#[trigger] req.entries@[i]).account_id@,
        ) by {
        lemma_refusal_of_entry(req, lookup, pending, Seq::empty(), i);
        assert(ids[i] == entries[i].account_id);
        assert(ids.contains(ids[i]));
        assert(order@.to_multiset().count(ids[i]) > 0);
        assert(order@.contains(ids[i]));
        let j = choose|j: int| 0 <= j < order.len() && order@[j] == ids[i];
        assert(order@[j] == ids[i]);
    }
    assert forall|j: int| 0 <= j < order.len() implies exists|i: int|
        0 <= i < req.entries.len() && Some(#[trigger] order@[j]) == uuid_value(
            (#[trigger] req.entries@[i]).account_id@,
        ) by {
        assert(order@.contains(order@[j]));
        assert(ids.to_multiset().count(order@[j]) > 0);
        assert(ids.contains(order@[j]));
        let i = choose|i: int| 0 <= i < ids.len() && ids[i] == order@[j];
        lemma_refusal_of_entry(req, lookup, pending, Seq::empty(), i);
        assert(Some(order@[j]) == uuid_value(req.entries@[i].account_id@));
    }
}

/// Whether a text is the plain notation of an amount.
pub open spec fn writes_amount(text: Seq<char>, amount: Decimal) -> bool {
    text == decimal_text(amount.spec_mantissa(), amount.spec_scale())
}

proof fn lemma_missing(
    req: proto::PostTransactionRequest,
    lookup: PostLookup,
    pending: PendingPosting,
    rows: Seq<Account>,
    i: int,
)
    requires
        waits(req, lookup, pending),
        0 <= i < req.entries.len(),
        !found(rows, pending@.entries[i].account_id),
    ensures
        without_row(req.entries@, rows, i),
        uuid_value(req.entries@[i].account_id@) == Some(pending@.entries[i].account_id),
{
    lemma_refusal_of_entry(req, lookup, pending, rows, i);
    lemma_rows(rows, pending@.entries[i].account_id);
}

} // verus!
