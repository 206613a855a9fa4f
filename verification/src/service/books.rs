//! What holds of every posting: the books stay balanced, the history of a balance has no gaps,
//! and a request that is refused is told why.
use vstd::prelude::*;

use crate::decimal::{
    law_representable_differences_are_exact, law_representable_sums_are_exact, lemma_valid,
    representable, Decimal,
};
use crate::domain::account::Account;
use crate::domain::entry::{
    amounts_valid, balanced, law_debits_equal_credits, side_units, sums_exact, CreateEntryParams,
    EntryType,
};
use crate::error::LedgerErrorView;
use crate::ids::uuid_text;
use crate::proto;
use crate::repository::account_repository::{found, smallest_missing};
use crate::service::posting::{
    account_ids, account_missing, accounts_by_id, balances_after, change_of, current_balance,
    entries_outcome, first_entry_problem, first_refusal, lemma_accounts_there,
    lemma_out_of_range_stays, lock_accepted, lock_refused, next_balance, posting_of, postings_of,
    request_problem, version_conflict, EntriesOutcome, PendingView, Posting,
};

verus! {

/// What the accounts count for in the accounting equation, all together.
pub open spec fn books_total(
    ids: Seq<u128>,
    accounts: Map<u128, Account>,
    balances: Map<u128, Decimal>,
) -> int
    decreases ids.len(),
{
    if ids.len() == 0 {
        0
    } else {
        books_total(ids.drop_last(), accounts, balances)
            + accounts[ids.last()].account_type.signed(
            current_balance(accounts, balances, ids.last()).units(),
        )
    }
}

/// Whether some decimal is worth the balance that an entry leaves its account with.
pub open spec fn step_exact(
    accounts: Map<u128, Account>,
    balances: Map<u128, Decimal>,
    e: CreateEntryParams,
) -> bool {
    representable(
        current_balance(accounts, balances, e.account_id).units() + change_of(
            accounts[e.account_id].account_type,
            e,
        ).units(),
    )
}

/// Whether every step of posting is exact: no balance is rounded.
pub open spec fn steps_exact(
    accounts: Map<u128, Account>,
    entries: Seq<CreateEntryParams>,
) -> bool
    decreases entries.len(),
{
    entries.len() > 0 ==> {
        &&& steps_exact(accounts, entries.drop_last())
        &&& step_exact(
            accounts,
            balances_after(accounts, entries.drop_last()).unwrap(),
            entries.last(),
        )
    }
}

/// Whether the stored balances are valid decimals.
pub open spec fn balances_valid(accounts: Map<u128, Account>) -> bool {
    forall|id: u128| #[trigger] accounts.contains_key(id) ==> accounts[id].balance.valid()
}

/// Whether the account of each entry is there.
pub open spec fn accounts_there(
    accounts: Map<u128, Account>,
    entries: Seq<CreateEntryParams>,
) -> bool {
    forall|i: int|
        0 <= i < entries.len() ==> accounts.contains_key((#[trigger] entries[i]).account_id)
}

/// Another balance for one account changes the total by as much.
proof fn lemma_total_changes(
    ids: Seq<u128>,
    accounts: Map<u128, Account>,
    balances: Map<u128, Decimal>,
    id: u128,
    next: Decimal,
)
    requires
        ids.no_duplicates(),
    ensures
        books_total(ids, accounts, balances.insert(id, next)) == books_total(
            ids,
            accounts,
            balances,
        ) + if ids.contains(id) {
            accounts[id].account_type.signed(next.units()) - accounts[id].account_type.signed(
                current_balance(accounts, balances, id).units(),
            )
        } else {
            0
        },
    decreases ids.len(),
{
    if ids.len() > 0 {
        let before = ids.drop_last();
        lemma_total_changes(before, accounts, balances, id, next);
        let last = ids[ids.len() - 1];
        if last == id {
            assert(!before.contains(id)) by {
                if before.contains(id) {
                    let i = choose|i: int| 0 <= i < before.len() && before[i] == id;
                    assert(ids[i] == id);
                }
            }
            assert(ids.contains(id));
        } else if before.contains(id) {
            let i = choose|i: int| 0 <= i < before.len() && before[i] == id;
            assert(ids[i] == id);
        } else if ids.contains(id) {
            let i = choose|i: int| 0 <= i < ids.len() && ids[i] == id;
            assert(before[i] == id);
        }
    }
}

/// An exact step moves the balance by the amount, on the side of the entry.
proof fn lemma_step(
    accounts: Map<u128, Account>,
    balances: Map<u128, Decimal>,
    e: CreateEntryParams,
)
    requires
        current_balance(accounts, balances, e.account_id).valid(),
        e.amount.valid(),
        next_balance(accounts, balances, e) is Some,
        step_exact(accounts, balances, e),
    ensures
        next_balance(accounts, balances, e).unwrap().valid(),
        accounts[e.account_id].account_type.signed(
            next_balance(accounts, balances, e).unwrap().units(),
        ) == accounts[e.account_id].account_type.signed(
            current_balance(accounts, balances, e.account_id).units(),
        ) + match e.entry_type {
            EntryType::Debit => e.amount.units(),
            EntryType::Credit => -e.amount.units(),
        },
{
    let t = accounts[e.account_id].account_type;
    let current = current_balance(accounts, balances, e.account_id);
    lemma_valid(e.amount);
    law_representable_sums_are_exact(current, change_of(t, e));
    if change_of(t, e) == e.amount.negated() {
        law_representable_differences_are_exact(current, e.amount);
    }
}

/// The balances that entries leave are valid decimals.
proof fn lemma_balances_stay_valid(accounts: Map<u128, Account>, entries: Seq<CreateEntryParams>)
    requires
        accounts_there(accounts, entries),
        balances_valid(accounts),
        amounts_valid(entries),
        steps_exact(accounts, entries),
        balances_after(accounts, entries) is Some,
    ensures
        forall|id: u128| #[trigger]
            balances_after(accounts, entries).unwrap().contains_key(id) ==> balances_after(
                accounts,
                entries,
            ).unwrap()[id].valid(),
    decreases entries.len(),
{
    if entries.len() > 0 {
        let before = entries.drop_last();
        lemma_prefix(accounts, entries);
        lemma_balances_stay_valid(accounts, before);
        lemma_step(
            accounts,
            balances_after(accounts, before).unwrap(),
            entries[entries.len() - 1],
        );
    }
}

/// What holds of entries holds of all but the last of them.
proof fn lemma_prefix(accounts: Map<u128, Account>, entries: Seq<CreateEntryParams>)
    requires
        entries.len() > 0,
        accounts_there(accounts, entries),
        amounts_valid(entries),
    ensures
        accounts_there(accounts, entries.drop_last()),
        amounts_valid(entries.drop_last()),
        accounts.contains_key(entries.last().account_id),
        entries.last().amount.valid(),
{
    let before = entries.drop_last();
    assert forall|i: int| 0 <= i < before.len() implies accounts.contains_key(
        (#[trigger] before[i]).account_id,
    ) by {
        assert(accounts.contains_key(entries[i].account_id));
    }
    assert forall|i: int| 0 <= i < before.len() implies (#[trigger] before[i]).amount.valid() by {
        assert(entries[i].amount.valid());
    }
    assert(accounts.contains_key(entries[entries.len() - 1].account_id));
    assert(entries[entries.len() - 1].amount.valid());
}

/// Posting entries raises the total of the books by the debits and lowers it by the credits,
/// where every step is exact. The books are any accounts among which are all those of the
/// entries.
pub proof fn law_posting_moves_the_books(
    ids: Seq<u128>,
    accounts: Map<u128, Account>,
    entries: Seq<CreateEntryParams>,
)
    requires
        ids.no_duplicates(),
        forall|i: int| 0 <= i < entries.len() ==> ids.contains((#[trigger] entries[i]).account_id),
        accounts_there(accounts, entries),
        balances_valid(accounts),
        amounts_valid(entries),
        steps_exact(accounts, entries),
        balances_after(accounts, entries) is Some,
    ensures
        books_total(ids, accounts, balances_after(accounts, entries).unwrap()) == books_total(
            ids,
            accounts,
            Map::empty(),
        ) + side_units(entries, EntryType::Debit) - side_units(entries, EntryType::Credit),
    decreases entries.len(),
{
    if entries.len() > 0 {
        let before = entries.drop_last();
        let e = entries[entries.len() - 1];
        assert forall|i: int| 0 <= i < before.len() implies ids.contains(
            (#[trigger] before[i]).account_id,
        ) by {
            assert(ids.contains(entries[i].account_id));
        }
        lemma_prefix(accounts, entries);
        law_posting_moves_the_books(ids, accounts, before);
        lemma_balances_stay_valid(accounts, before);
        let balances = balances_after(accounts, before).unwrap();
        lemma_step(accounts, balances, e);
        lemma_total_changes(
            ids,
            accounts,
            balances,
            e.account_id,
            next_balance(accounts, balances, e).unwrap(),
        );
        assert(ids.contains(e.account_id));
    }
}

/// The accounting equation: posting entries that balance leaves the total of the books as it
/// was, where every step is exact. What debit-normal accounts hold more is what credit-normal
/// accounts hold more.
pub proof fn law_posting_keeps_the_books_balanced(
    ids: Seq<u128>,
    accounts: Map<u128, Account>,
    entries: Seq<CreateEntryParams>,
)
    requires
        balanced(entries),
        ids.no_duplicates(),
        forall|i: int| 0 <= i < entries.len() ==> ids.contains((#[trigger] entries[i]).account_id),
        accounts_there(accounts, entries),
        balances_valid(accounts),
        amounts_valid(entries),
        sums_exact(entries, EntryType::Debit),
        sums_exact(entries, EntryType::Credit),
        steps_exact(accounts, entries),
        balances_after(accounts, entries) is Some,
    ensures
        books_total(ids, accounts, balances_after(accounts, entries).unwrap()) == books_total(
            ids,
            accounts,
            Map::empty(),
        ),
{
    law_posting_moves_the_books(ids, accounts, entries);
    law_debits_equal_credits(entries);
}

/// Where all entries can be posted, any number of the first of them can.
proof fn lemma_prefix_in_range(
    accounts: Map<u128, Account>,
    entries: Seq<CreateEntryParams>,
    n: int,
)
    requires
        0 <= n <= entries.len(),
        balances_after(accounts, entries) is Some,
    ensures
        balances_after(accounts, entries.take(n)) is Some,
        n < entries.len() ==> balances_after(accounts, entries.take(n + 1)) == Some(
            balances_after(accounts, entries.take(n)).unwrap().insert(
                entries[n].account_id,
                next_balance(
                    accounts,
                    balances_after(accounts, entries.take(n)).unwrap(),
                    entries[n],
                ).unwrap(),
            ),
        ),
{
    if balances_after(accounts, entries.take(n)) is None {
        lemma_out_of_range_stays(accounts, entries, n);
    }
    if n < entries.len() {
        assert(entries.take(n + 1).drop_last() =~= entries.take(n));
        if balances_after(accounts, entries.take(n + 1)) is None {
            lemma_out_of_range_stays(accounts, entries, n + 1);
        }
    }
}

/// Entries of other accounts leave an account's balance alone.
proof fn lemma_untouched(
    accounts: Map<u128, Account>,
    entries: Seq<CreateEntryParams>,
    id: u128,
    m: int,
    n: int,
)
    requires
        0 <= m <= n <= entries.len(),
        balances_after(accounts, entries) is Some,
        forall|k: int| m <= k < n ==> (#[trigger] entries[k]).account_id != id,
    ensures
        balances_after(accounts, entries.take(n)).unwrap().contains_key(id) == balances_after(
            accounts,
            entries.take(m),
        ).unwrap().contains_key(id),
        current_balance(accounts, balances_after(accounts, entries.take(n)).unwrap(), id)
            == current_balance(accounts, balances_after(accounts, entries.take(m)).unwrap(), id),
    decreases n - m,
{
    if m < n {
        lemma_untouched(accounts, entries, id, m, n - 1);
        lemma_prefix_in_range(accounts, entries, n - 1);
        assert(entries[n - 1].account_id != id);
    }
}

/// Posting touches the accounts of the entries and no others.
pub proof fn law_only_their_accounts_are_touched(
    accounts: Map<u128, Account>,
    entries: Seq<CreateEntryParams>,
    id: u128,
)
    requires
        balances_after(accounts, entries) is Some,
    ensures
        balances_after(accounts, entries).unwrap().contains_key(id) <==> exists|i: int|
            0 <= i < entries.len() && (#[trigger] entries[i]).account_id == id,
    decreases entries.len(),
{
    if entries.len() > 0 {
        let before = entries.drop_last();
        law_only_their_accounts_are_touched(accounts, before, id);
        let last = entries[entries.len() - 1];
        if balances_after(accounts, before).unwrap().contains_key(id) {
            let i = choose|i: int| 0 <= i < before.len() && (#[trigger] before[i]).account_id == id;
            assert(entries[i].account_id == id);
        }
        if exists|i: int| 0 <= i < entries.len() && (#[trigger] entries[i]).account_id == id {
            let i = choose|i: int|
                0 <= i < entries.len() && (#[trigger] entries[i]).account_id == id;
            if i < before.len() {
                assert(before[i].account_id == id);
            }
        }
    }
}

/// The history of an account has no gaps: its first entry in a transaction starts from the
/// balance that was stored.
pub proof fn law_history_starts_at_the_stored_balance(
    accounts: Map<u128, Account>,
    entries: Seq<CreateEntryParams>,
    postings: Seq<Posting>,
    j: int,
)
    requires
        balances_after(accounts, entries) is Some,
        postings_of(accounts, entries, postings),
        0 <= j < entries.len(),
        forall|k: int|
            0 <= k < j ==> (#[trigger] entries[k]).account_id != entries[j].account_id,
    ensures
        postings[j].previous_balance == accounts[entries[j].account_id].balance,
{
    lemma_untouched(accounts, entries, entries[j].account_id, 0, j);
    assert(entries.take(0) =~= Seq::<CreateEntryParams>::empty());
    assert(posting_of(
        accounts,
        balances_after(accounts, entries.take(j)).unwrap(),
        entries[j],
        postings[j],
    ));
}

/// The history of an account has no gaps: each of its entries starts from the balance that the
/// one before has left.
pub proof fn law_history_is_a_chain(
    accounts: Map<u128, Account>,
    entries: Seq<CreateEntryParams>,
    postings: Seq<Posting>,
    i: int,
    j: int,
)
    requires
        balances_after(accounts, entries) is Some,
        postings_of(accounts, entries, postings),
        0 <= i < j < entries.len(),
        entries[i].account_id == entries[j].account_id,
        forall|k: int|
            i < k < j ==> (#[trigger] entries[k]).account_id != entries[j].account_id,
    ensures
        postings[j].previous_balance == postings[i].balance_after,
{
    lemma_prefix_in_range(accounts, entries, i);
    lemma_untouched(accounts, entries, entries[j].account_id, i + 1, j);
    assert(posting_of(
        accounts,
        balances_after(accounts, entries.take(i)).unwrap(),
        entries[i],
        postings[i],
    ));
    assert(posting_of(
        accounts,
        balances_after(accounts, entries.take(j)).unwrap(),
        entries[j],
        postings[j],
    ));
}

/// The history of an account has no gaps: its last entry in a transaction leaves the balance
/// that is stored in the end.
pub proof fn law_history_ends_at_the_new_balance(
    accounts: Map<u128, Account>,
    entries: Seq<CreateEntryParams>,
    postings: Seq<Posting>,
    i: int,
)
    requires
        balances_after(accounts, entries) is Some,
        postings_of(accounts, entries, postings),
        0 <= i < entries.len(),
        forall|k: int|
            i < k < entries.len() ==> (#[trigger] entries[k]).account_id != entries[i].account_id,
    ensures
        balances_after(accounts, entries).unwrap().contains_key(entries[i].account_id),
        balances_after(accounts, entries).unwrap()[entries[i].account_id]
            == postings[i].balance_after,
{
    lemma_prefix_in_range(accounts, entries, i);
    lemma_untouched(accounts, entries, entries[i].account_id, i + 1, entries.len() as int);
    assert(entries.take(entries.len() as int) =~= entries);
    assert(posting_of(
        accounts,
        balances_after(accounts, entries.take(i)).unwrap(),
        entries[i],
        postings[i],
    ));
}

/// What is recorded as the change is worth the amount of the entry, with a minus sign where the
/// entry is on the side that lowers the balance.
pub proof fn law_recorded_change_is_the_amount(
    accounts: Map<u128, Account>,
    balances: Map<u128, Decimal>,
    p: Posting,
)
    requires
        posting_of(accounts, balances, p.entry, p),
        current_balance(accounts, balances, p.entry.account_id).valid(),
        p.entry.amount.valid(),
        step_exact(accounts, balances, p.entry),
    ensures
        p.change_amount.units() == change_of(
            accounts[p.entry.account_id].account_type,
            p.entry,
        ).units(),
{
    lemma_step(accounts, balances, p.entry);
    lemma_valid(p.entry.amount);
    let change = change_of(accounts[p.entry.account_id].account_type, p.entry);
    assert(p.balance_after.units() - p.previous_balance.units() == change.units());
    assert(representable(change.units()));
    law_representable_differences_are_exact(p.balance_after, p.previous_balance);
}

/// Nothing is debited beyond what is available: where a transaction may be posted, each of its
/// debits on an asset or expense account is covered by the available balance.
pub proof fn law_debits_are_covered(
    accounts: Map<u128, Account>,
    entries: Seq<CreateEntryParams>,
    i: int,
)
    requires
        first_refusal(accounts, entries) is None,
        0 <= i < entries.len(),
        entries[i].entry_type is Debit,
        accounts[entries[i].account_id].account_type.debit_normal(),
    ensures
        entries[i].amount.units() <= accounts[entries[i].account_id].available_balance.units(),
{
    lemma_accounts_there(accounts, entries, i);
}

/// Only active accounts are posted to.
pub proof fn law_only_active_accounts_are_posted_to(
    accounts: Map<u128, Account>,
    entries: Seq<CreateEntryParams>,
    i: int,
)
    requires
        first_refusal(accounts, entries) is None,
        0 <= i < entries.len(),
    ensures
        accounts.contains_key(entries[i].account_id),
        accounts[entries[i].account_id].status is Active,
{
    lemma_accounts_there(accounts, entries, i);
}

/// Whatever is wrong with a request to post a transaction, it is answered as an invalid
/// argument.
pub proof fn law_bad_postings_are_invalid_arguments(req: proto::PostTransactionRequest)
    ensures
        request_problem(req) matches Some(status) ==> status.code is InvalidArgument,
        entries_outcome(req.entries@) matches EntriesOutcome::Refused(status) ==> status.code is InvalidArgument,
{
    lemma_entry_problems(req.entries@);
}

proof fn lemma_entry_problems(entries: Seq<proto::EntryRequest>)
    ensures
        first_entry_problem(entries) matches Some(status) ==> status.code is InvalidArgument,
    decreases entries.len(),
{
    if entries.len() > 0 {
        lemma_entry_problems(entries.drop_last());
    }
}

/// How a posting is answered that its accounts do not allow: as not found where an account is
/// missing, as aborted where a version is not as expected, and as a failed precondition
/// otherwise.
pub proof fn law_answers_to_refused_postings(
    pending: PendingView,
    rows: Seq<Account>,
    e: LedgerErrorView,
)
    requires
        lock_refused(pending, rows, e),
    ensures
        e is AccountNotFound ==> e.status().code is NotFound,
        e is OptimisticLockError ==> e.status().code is Aborted,
        !(e is AccountNotFound) && !(e is OptimisticLockError) ==> e.status().code is FailedPrecondition,
        e is AccountNotFound || e is OptimisticLockError || e is AccountFrozen
            || e is AccountClosed || e is InsufficientBalance,
{
    lemma_refusals(accounts_by_id(rows), pending.entries);
}

proof fn lemma_refusals(accounts: Map<u128, Account>, entries: Seq<CreateEntryParams>)
    ensures
        first_refusal(accounts, entries) matches Some(e) ==> e is AccountNotFound
            || e is AccountFrozen || e is AccountClosed || e is InsufficientBalance,
    decreases entries.len(),
{
    if entries.len() > 0 {
        lemma_refusals(accounts, entries.drop_last());
    }
}

/// A posting is either refused for a reason or accepted, and never both.
pub proof fn law_a_posting_is_accepted_or_refused(pending: PendingView, rows: Seq<Account>)
    ensures
        lock_accepted(pending, rows) <==> !(exists|e: LedgerErrorView|
            lock_refused(pending, rows, e)),
{
    let accounts = accounts_by_id(rows);
    if account_missing(pending.entries, rows) {
        let ids = account_ids(pending.entries);
        let id = choose|id: u128| #[trigger] ids.contains(id) && !found(rows, id);
        let smallest = lemma_smallest_missing(ids, rows, id);
        assert(lock_refused(
            pending,
            rows,
            LedgerErrorView::AccountNotFound(uuid_text(smallest)),
        ));
    } else if exists|id: u128| #[trigger] version_conflict(pending.versions, accounts, id) {
        let id = choose|id: u128| #[trigger] version_conflict(pending.versions, accounts, id);
        assert(lock_refused(
            pending,
            rows,
            LedgerErrorView::OptimisticLockError {
                account_id: uuid_text(id),
                expected_version: pending.versions[id],
                actual_version: accounts[id].version,
            },
        ));
    } else if first_refusal(accounts, pending.entries) is Some {
        assert(lock_refused(pending, rows, first_refusal(accounts, pending.entries).unwrap()));
    }
}

/// Where an account is missing, one of the missing has the smallest id.
proof fn lemma_smallest_missing(ids: Seq<u128>, rows: Seq<Account>, id: u128) -> (smallest: u128)
    requires
        ids.contains(id),
        !found(rows, id),
    ensures
        smallest_missing(ids, rows, smallest),
    decreases id,
{
    if exists|other: u128| #[trigger] ids.contains(other) && !found(rows, other) && other < id {
        let other = choose|other: u128| #[trigger]
            ids.contains(other) && !found(rows, other) && other < id;
        lemma_smallest_missing(ids, rows, other)
    } else {
        id
    }
}

/// What entries add to the balance of one account, in units of `10^-28`.
pub open spec fn account_change(
    accounts: Map<u128, Account>,
    entries: Seq<CreateEntryParams>,
    id: u128,
) -> int
    decreases entries.len(),
{
    if entries.len() == 0 {
        0
    } else {
        account_change(accounts, entries.drop_last(), id) + if entries.last().account_id == id {
            change_of(accounts[id].account_type, entries.last()).units()
        } else {
            0
        }
    }
}

/// The new balance of an account is the stored one and what its entries add to it, where every
/// step is exact.
pub proof fn law_new_balance_is_the_old_one_and_its_entries(
    accounts: Map<u128, Account>,
    entries: Seq<CreateEntryParams>,
    id: u128,
)
    requires
        accounts_there(accounts, entries),
        balances_valid(accounts),
        amounts_valid(entries),
        steps_exact(accounts, entries),
        balances_after(accounts, entries) is Some,
    ensures
        current_balance(accounts, balances_after(accounts, entries).unwrap(), id).units()
            == accounts[id].balance.units() + account_change(accounts, entries, id),
    decreases entries.len(),
{
    if entries.len() > 0 {
        let before = entries.drop_last();
        let e = entries[entries.len() - 1];
        lemma_prefix(accounts, entries);
        law_new_balance_is_the_old_one_and_its_entries(accounts, before, id);
        lemma_balances_stay_valid(accounts, before);
        lemma_step(accounts, balances_after(accounts, before).unwrap(), e);
        lemma_valid(e.amount);
    }
}

/// Whether a transaction is posted, given the accounts that were locked for it: its entries may
/// be, its parameters break no rule, and every balance is in range.
pub open spec fn is_posted(pending: PendingView, rows: Seq<Account>) -> bool {
    &&& lock_accepted(pending, rows)
    &&& pending.transaction.problem() is None
    &&& balances_after(accounts_by_id(rows), pending.entries) is Some
}

/// The balances that a request to post a transaction writes: those that its entries leave where
/// it is posted, and none otherwise. Nothing is pending where the request was made before, or
/// was refused before its accounts were locked.
pub open spec fn balances_written(pending: Option<PendingView>, rows: Seq<Account>) -> Map<
    u128,
    Decimal,
> {
    match pending {
        Some(p) => if is_posted(p, rows) {
            balances_after(accounts_by_id(rows), p.entries).unwrap()
        } else {
            Map::empty()
        },
        None => Map::empty(),
    }
}

/// Whether the accounts that were locked are among those that are stored.
pub open spec fn rows_stored(accounts: Map<u128, Account>, rows: Seq<Account>) -> bool {
    forall|id: u128| #[trigger]
        accounts_by_id(rows).contains_key(id) ==> accounts.contains_key(id) && accounts[id]
            == accounts_by_id(rows)[id]
}

/// What entries leave depends on their own accounts alone.
proof fn lemma_own_accounts(
    accounts: Map<u128, Account>,
    locked: Map<u128, Account>,
    entries: Seq<CreateEntryParams>,
)
    requires
        accounts_there(locked, entries),
        forall|id: u128| #[trigger]
            locked.contains_key(id) ==> accounts.contains_key(id) && accounts[id] == locked[id],
    ensures
        accounts_there(accounts, entries),
        balances_after(accounts, entries) == balances_after(locked, entries),
    decreases entries.len(),
{
    assert forall|i: int| 0 <= i < entries.len() implies accounts.contains_key(
        (#[trigger] entries[i]).account_id,
    ) by {
        assert(locked.contains_key(entries[i].account_id));
    }
    if entries.len() > 0 {
        let before = entries.drop_last();
        assert forall|i: int| 0 <= i < before.len() implies locked.contains_key(
            (#[trigger] before[i]).account_id,
        ) by {
            assert(locked.contains_key(entries[i].account_id));
        }
        lemma_own_accounts(accounts, locked, before);
        assert(locked.contains_key(entries[entries.len() - 1].account_id));
    }
}

/// The accounting equation holds whatever comes of a request to post a transaction, whether it
/// is posted, refused, or was made before: the total of the books is as it was, where every step
/// of what is posted is exact.
pub proof fn law_books_stay_balanced_whatever_comes(
    ids: Seq<u128>,
    accounts: Map<u128, Account>,
    pending: Option<PendingView>,
    rows: Seq<Account>,
)
    requires
        ids.no_duplicates(),
        rows_stored(accounts, rows),
        balances_valid(accounts),
        pending matches Some(p) ==> {
            &&& balanced(p.entries)
            &&& amounts_valid(p.entries)
            &&& forall|i: int|
                0 <= i < p.entries.len() ==> ids.contains((#[trigger] p.entries[i]).account_id)
            &&& sums_exact(p.entries, EntryType::Debit)
            &&& sums_exact(p.entries, EntryType::Credit)
            &&& steps_exact(accounts, p.entries)
        },
    ensures
        books_total(ids, accounts, balances_written(pending, rows)) == books_total(
            ids,
            accounts,
            Map::empty(),
        ),
{
    if let Some(p) = pending {
        if is_posted(p, rows) {
            let locked = accounts_by_id(rows);
            assert forall|i: int| 0 <= i < p.entries.len() implies locked.contains_key(
                (#[trigger] p.entries[i]).account_id,
            ) by {
                lemma_accounts_there(locked, p.entries, i);
            }
            lemma_own_accounts(accounts, locked, p.entries);
            law_posting_keeps_the_books_balanced(ids, accounts, p.entries);
        }
    }
}

} // verus!
