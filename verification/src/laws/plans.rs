//! What posting does to the accounts: each entry moves the balance of its own account by its
//! amount, in the direction that its side and the type of the account say.
use vstd::prelude::*;

use crate::clock::DateTime;
use crate::decimal::{
    decimal_difference, decimal_parse, decimal_sum, law_representable_differences_are_exact,
    law_representable_sums_are_exact, lemma_valid, representable, Decimal, Overflow,
};
use crate::domain::account::{Account, AccountType};
use crate::domain::entry::{CreateEntryParams, Entry, EntryType};
use crate::domain::transaction::{CreateTransactionParams, Transaction, TransactionEvent};
use crate::ids::{law_id_text_parses_back, uuid_text, uuid_value};
use crate::laws::messages::{lemma_transaction_message, tells_of_transaction};
use crate::laws::metadata::holds_metadata;
use crate::laws::postings::{lemma_rows, on_row, row_of, waits};
use crate::laws::requests::{law_the_entries_asked_for_are_posted, stands_for};
use crate::laws::texts::{law_numbers_are_read_back, number_read};
use crate::proto;
use crate::repository::account_repository::{
    AccountRepository, BalanceChange, BalanceUpdate,
};
use crate::repository::transaction_repository::{NewEntry, TransactionRepository};
use crate::service::books::{
    law_history_ends_at_the_new_balance, law_history_is_a_chain,
    law_history_starts_at_the_stored_balance, law_only_their_accounts_are_touched,
};
use crate::service::ledger_service::LedgerServiceImpl;
use crate::service::posting::{
    balance_with, balances_after, change_of, current_balance, entry_in_range,
    lemma_out_of_range_stays, next_balance, posting_of, postings_of, AuthorizedPosting,
    PendingPosting, PostLookup, Posting, PostingPlan,
};
use crate::text::nat_text;

verus! {

/// What an amount on one side adds to the balance of an account: debits raise asset and expense
/// accounts and lower the others, credits do the opposite.
pub open spec fn effect(t: AccountType, side: EntryType, amount: int) -> int {
    match (t, side) {
        (AccountType::Asset, EntryType::Debit) => amount,
        (AccountType::Expense, EntryType::Debit) => amount,
        (AccountType::Asset, EntryType::Credit) => -amount,
        (AccountType::Expense, EntryType::Credit) => -amount,
        (_, EntryType::Debit) => -amount,
        (_, EntryType::Credit) => amount,
    }
}

/// What an entry adds to the balance of its account.
pub open spec fn effect_of(account: Account, e: CreateEntryParams) -> int {
    effect(account.account_type, e.entry_type, e.amount.units())
}

/// What the balance of an account is worth after the first `n` entries: what is stored, and what
/// each of the entries on the account adds to it.
pub open spec fn running(
    account: Account,
    id: u128,
    entries: Seq<CreateEntryParams>,
    n: int,
) -> int
    decreases n,
{
    if n <= 0 {
        account.balance.units()
    } else {
        running(account, id, entries, n - 1) + if entries[n - 1].account_id == id {
            effect_of(account, entries[n - 1])
        } else {
            0
        }
    }
}

/// Whether an entry can be posted without rounding: its account is there and can have another
/// version, and some decimal is worth the balance after the entry, and the stored balance with
/// this entry alone.
pub open spec fn posts_exactly(
    accounts: Map<u128, Account>,
    entries: Seq<CreateEntryParams>,
    i: int,
) -> bool {
    let e = entries[i];
    let account = accounts[e.account_id];
    &&& accounts.contains_key(e.account_id)
    &&& account.balance.valid()
    &&& e.amount.valid()
    &&& account.version < i64::MAX
    &&& representable(running(account, e.account_id, entries, i + 1))
    &&& representable(account.balance.units() + effect_of(account, e))
}

/// Whether the balances are those after the first `n` entries.
spec fn follows(
    accounts: Map<u128, Account>,
    entries: Seq<CreateEntryParams>,
    n: int,
    balances: Map<u128, Decimal>,
) -> bool {
    forall|id: u128| #[trigger]
        balances.contains_key(id) ==> balances[id].valid() && balances[id].units() == running(
            accounts[id],
            id,
            entries,
            n,
        )
}

/// One entry moves the balance of its account by what it adds.
proof fn lemma_one_entry(
    accounts: Map<u128, Account>,
    entries: Seq<CreateEntryParams>,
    i: int,
    balances: Map<u128, Decimal>,
)
    requires
        0 <= i < entries.len(),
        posts_exactly(accounts, entries, i),
        current_balance(accounts, balances, entries[i].account_id).valid(),
        current_balance(accounts, balances, entries[i].account_id).units() == running(
            accounts[entries[i].account_id],
            entries[i].account_id,
            entries,
            i,
        ),
    ensures
        entry_in_range(accounts, balances, entries[i]),
        next_balance(accounts, balances, entries[i]) matches Some(next) && next.valid()
            && next.units() == running(
            accounts[entries[i].account_id],
            entries[i].account_id,
            entries,
            i + 1,
        ),
{
    let e = entries[i];
    let account = accounts[e.account_id];
    let current = current_balance(accounts, balances, e.account_id);
    let change = change_of(account.account_type, e);
    lemma_valid(e.amount);
    assert(change.valid() && change.units() == effect_of(account, e));
    law_representable_sums_are_exact(account.balance, e.amount);
    law_representable_differences_are_exact(account.balance, e.amount);
    law_representable_sums_are_exact(current, change);
    let next = next_balance(accounts, balances, e).unwrap();
    assert(next.units() - current.units() == change.units());
    assert(representable(next.units() - current.units()));
    law_representable_differences_are_exact(next, current);
}

/// The balances after the first `n` entries.
proof fn lemma_balances_follow(
    accounts: Map<u128, Account>,
    entries: Seq<CreateEntryParams>,
    n: int,
)
    requires
        0 <= n <= entries.len(),
        forall|i: int| 0 <= i < entries.len() ==> #[trigger] posts_exactly(accounts, entries, i),
    ensures
        balances_after(accounts, entries.take(n)) matches Some(balances) && follows(
            accounts,
            entries,
            n,
            balances,
        ),
        forall|id: u128|
            #![trigger balances_after(accounts, entries.take(n)).unwrap().contains_key(id)]
            !balances_after(accounts, entries.take(n)).unwrap().contains_key(id) ==> running(
                accounts[id],
                id,
                entries,
                n,
            ) == accounts[id].balance.units(),
    decreases n,
{
    if n > 0 {
        lemma_balances_follow(accounts, entries, n - 1);
        assert(entries.take(n).drop_last() =~= entries.take(n - 1));
        let balances = balances_after(accounts, entries.take(n - 1)).unwrap();
        let e = entries[n - 1];
        assert(posts_exactly(accounts, entries, n - 1));
        assert(balances.contains_key(e.account_id) || !balances.contains_key(e.account_id));
        lemma_one_entry(accounts, entries, n - 1, balances);
        let next = balances.insert(
            e.account_id,
            next_balance(accounts, balances, e).unwrap(),
        );
        assert(balances_after(accounts, entries.take(n)) == Some(next));
        assert forall|id: u128| #[trigger] next.contains_key(id) implies next[id].valid()
            && next[id].units() == running(accounts[id], id, entries, n) by {
            if id != e.account_id {
                assert(balances.contains_key(id));
            }
        }
        assert forall|id: u128|
            #![trigger balances_after(accounts, entries.take(n)).unwrap().contains_key(id)]
            !balances_after(accounts, entries.take(n)).unwrap().contains_key(id) implies running(
            accounts[id],
            id,
            entries,
            n,
        ) == accounts[id].balance.units() by {
            assert(!balances.contains_key(id));
        }
    }
}

/// Each entry moves the balance of its account by its amount, up or down as its side and the type
/// of the account say, from what the entries before it have left. That is what is recorded of it,
/// with the version of the account and the next one. In the end each account of an entry, and no
/// other, gets the balance that is stored and all that its entries add to it, once. This holds
/// wherever nothing has to be rounded, and then nothing is out of range.
pub proof fn law_entries_move_the_balances(
    authorized: AuthorizedPosting,
    r: Result<PostingPlan, Overflow>,
)
    requires
        call_ensures(AuthorizedPosting::plan, (authorized,), r),
        forall|i: int|
            0 <= i < authorized@.entries.len() ==> #[trigger] posts_exactly(
                authorized@.accounts,
                authorized@.entries,
                i,
            ),
    ensures
        r matches Ok(plan) && {
            &&& plan.postings.len() == authorized@.entries.len()
            &&& forall|i: int|
                0 <= i < plan.postings.len() ==> moves(
                    authorized@.accounts,
                    authorized@.entries,
                    i,
                    #[trigger] plan.postings@[i],
                )
            &&& forall|i: int, j: int|
                0 <= i < j < plan.balances.len() ==> plan.balances@[i].0 != plan.balances@[j].0
            &&& forall|i: int|
                0 <= i < authorized@.entries.len() ==> exists|j: int|
                    0 <= j < plan.balances.len() && (#[trigger] plan.balances@[j]).0 == (
                    #[trigger] authorized@.entries[i]).account_id
            &&& forall|j: int|
                0 <= j < plan.balances.len() ==> {
                    let id = (#[trigger] plan.balances@[j]).0;
                    &&& exists|i: int|
                        0 <= i < authorized@.entries.len() && (
                        #[trigger] authorized@.entries[i]).account_id == id
                    &&& plan.balances@[j].1.units() == running(
                        authorized@.accounts[id],
                        id,
                        authorized@.entries,
                        authorized@.entries.len() as int,
                    )
                }
        },
{
    let accounts = authorized@.accounts;
    let entries = authorized@.entries;
    let n = entries.len() as int;
    lemma_balances_follow(accounts, entries, n);
    assert(entries.take(n) =~= entries);
    let plan = r->Ok_0;
    let balances = balances_after(accounts, entries).unwrap();
    assert forall|i: int| 0 <= i < plan.postings.len() implies moves(
        accounts,
        entries,
        i,
        #[trigger] plan.postings@[i],
    ) by {
        lemma_balances_follow(accounts, entries, i);
        let before = balances_after(accounts, entries.take(i)).unwrap();
        let e = entries[i];
        assert(posting_of(accounts, before, e, plan.postings@[i]));
        assert(posts_exactly(accounts, entries, i));
        assert(before.contains_key(e.account_id) || !before.contains_key(e.account_id));
        lemma_one_entry(accounts, entries, i, before);
        let change = change_of(accounts[e.account_id].account_type, e);
        lemma_valid(e.amount);
        let p = plan.postings@[i];
        assert(change.valid() && change.units() == p.balance_after.units()
            - p.previous_balance.units());
        assert(representable(p.balance_after.units() - p.previous_balance.units()));
        law_representable_differences_are_exact(p.balance_after, p.previous_balance);
    }
    assert forall|i: int| 0 <= i < entries.len() implies exists|j: int|
        0 <= j < plan.balances.len() && (#[trigger] plan.balances@[j]).0 == (
        #[trigger] entries[i]).account_id by {
        law_only_their_accounts_are_touched(accounts, entries, entries[i].account_id);
        assert(balances.contains_key(entries[i].account_id));
    }
    assert forall|j: int| 0 <= j < plan.balances.len() implies {
        let id = (#[trigger] plan.balances@[j]).0;
        &&& exists|i: int|
            0 <= i < entries.len() && (#[trigger] entries[i]).account_id == id
        &&& plan.balances@[j].1.units() == running(accounts[id], id, entries, n)
    } by {
        let id = plan.balances@[j].0;
        assert(balances.contains_key(id));
        law_only_their_accounts_are_touched(accounts, entries, id);
    }
}

/// Whether a posting is what the entry at `i` does: from what the entries before have left, by the
/// entry's amount in its direction, and from one version to the next.
pub open spec fn moves(
    accounts: Map<u128, Account>,
    entries: Seq<CreateEntryParams>,
    i: int,
    p: Posting,
) -> bool {
    let e = entries[i];
    let account = accounts[e.account_id];
    &&& p.entry == e
    &&& p.previous_balance.units() == running(account, e.account_id, entries, i)
    &&& p.balance_after.units() == p.previous_balance.units() + effect_of(account, e)
    &&& p.change_amount.units() == effect_of(account, e)
    &&& p.version_before == account.version
    &&& p.version_after == account.version + 1
}

/// The history of an account has no gaps, rounded or not: its first entry starts from the balance
/// that is stored, each further one from the balance that the one before has left, and the last
/// one leaves the balance that is stored in the end.
pub proof fn law_the_history_of_a_plan_has_no_gaps(
    authorized: AuthorizedPosting,
    plan: PostingPlan,
    i: int,
    j: int,
)
    requires
        call_ensures(AuthorizedPosting::plan, (authorized,), Ok(plan)),
        0 <= j < authorized@.entries.len(),
    ensures
        plan.postings.len() == authorized@.entries.len(),
        plan.postings@[j].entry == authorized@.entries[j],
        (forall|k: int|
            0 <= k < j ==> (#[trigger] authorized@.entries[k]).account_id
                != authorized@.entries[j].account_id) ==> plan.postings@[j].previous_balance
            == authorized@.accounts[authorized@.entries[j].account_id].balance,
        0 <= i < j && authorized@.entries[i].account_id == authorized@.entries[j].account_id && (
        forall|k: int|
            i < k < j ==> (#[trigger] authorized@.entries[k]).account_id
                != authorized@.entries[j].account_id) ==> plan.postings@[j].previous_balance
            == plan.postings@[i].balance_after,
        (forall|k: int|
            j < k < authorized@.entries.len() ==> (#[trigger] authorized@.entries[k]).account_id
                != authorized@.entries[j].account_id) ==> exists|n: int|
            0 <= n < plan.balances.len() && (#[trigger] plan.balances@[n]).0
                == authorized@.entries[j].account_id && plan.balances@[n].1
                == plan.postings@[j].balance_after,
{
    let accounts = authorized@.accounts;
    let entries = authorized@.entries;
    let balances = balances_after(accounts, entries).unwrap();
    assert(posting_of(
        accounts,
        balances_after(accounts, entries.take(j)).unwrap(),
        entries[j],
        plan.postings@[j],
    ));
    if forall|k: int| 0 <= k < j ==> (#[trigger] entries[k]).account_id != entries[j].account_id {
        law_history_starts_at_the_stored_balance(accounts, entries, plan.postings@, j);
    }
    if 0 <= i < j && entries[i].account_id == entries[j].account_id && forall|k: int|
        i < k < j ==> (#[trigger] entries[k]).account_id != entries[j].account_id {
        law_history_is_a_chain(accounts, entries, plan.postings@, i, j);
    }
    if forall|k: int|
        j < k < entries.len() ==> (#[trigger] entries[k]).account_id != entries[j].account_id {
        law_history_ends_at_the_new_balance(accounts, entries, plan.postings@, j);
        assert(balances.contains_key(entries[j].account_id));
        let n = choose|n: int|
            0 <= n < plan.balances.len() && (#[trigger] plan.balances@[n]).0
                == entries[j].account_id;
        assert(balances[plan.balances@[n].0] == plan.balances@[n].1);
    }
}

/// Rounded or not, each entry is one step: the first on an account debits or credits the account,
/// each further one adds its amount to what the one before has left, or takes it away, and what is
/// recorded as the change is what lies between the two balances. An entry that would leave the
/// range by itself is never posted.
pub proof fn law_each_entry_is_one_step(
    authorized: AuthorizedPosting,
    plan: PostingPlan,
    j: int,
    alone: Option<Decimal>,
    sum: Option<Decimal>,
    opposite: Decimal,
    difference: Option<Decimal>,
    change: Option<Decimal>,
)
    requires
        call_ensures(AuthorizedPosting::plan, (authorized,), Ok(plan)),
        0 <= j < authorized@.entries.len(),
        ({
            let e = authorized@.entries[j];
            let account = authorized@.accounts[e.account_id];
            let p = plan.postings@[j];
            &&& e.entry_type is Debit ==> call_ensures(
                Account::checked_apply_debit,
                (&account, e.amount),
                alone,
            )
            &&& e.entry_type is Credit ==> call_ensures(
                Account::checked_apply_credit,
                (&account, e.amount),
                alone,
            )
            &&& call_ensures(Decimal::checked_add, (p.previous_balance, e.amount), sum)
            &&& call_ensures(Decimal::neg, (e.amount,), opposite)
            &&& call_ensures(Decimal::checked_add, (p.previous_balance, opposite), difference)
            &&& call_ensures(Decimal::checked_sub, (p.balance_after, p.previous_balance), change)
        }),
    ensures
        ({
            let e = authorized@.entries[j];
            let account = authorized@.accounts[e.account_id];
            let p = plan.postings@[j];
            let first = forall|k: int|
                0 <= k < j ==> (#[trigger] authorized@.entries[k]).account_id != e.account_id;
            &&& alone is Some
            &&& first ==> Some(p.balance_after) == alone
            &&& !first ==> Some(p.balance_after) == if effect(
                account.account_type,
                e.entry_type,
                1,
            ) == 1 {
                sum
            } else {
                difference
            }
            &&& Some(p.change_amount) == change
            &&& p.version_before == account.version
            &&& p.version_after == account.version + 1
        }),
{
    let accounts = authorized@.accounts;
    let entries = authorized@.entries;
    let e = entries[j];
    let before = balances_after(accounts, entries.take(j)).unwrap();
    assert(posting_of(accounts, before, e, plan.postings@[j]));
    lemma_in_range(accounts, entries, j);
    law_only_their_accounts_are_touched(accounts, entries.take(j), e.account_id);
    if before.contains_key(e.account_id) {
        let k = choose|k: int|
            0 <= k < entries.take(j).len() && (#[trigger] entries.take(j)[k]).account_id
                == e.account_id;
        assert(entries[k].account_id == e.account_id);
    } else {
        assert forall|k: int| 0 <= k < j implies (#[trigger] entries[k]).account_id
            != e.account_id by {
            assert(entries.take(j)[k] == entries[k]);
        }
    }
}

/// Whether one of the first `n` entries is on the account with this id.
pub open spec fn touched(entries: Seq<CreateEntryParams>, id: u128, n: int) -> bool
    decreases n,
{
    n > 0 && (entries[n - 1].account_id == id || touched(entries, id, n - 1))
}

/// The balance that the first `n` entries leave the account with this id with, where the entry at
/// `i` leaves its account with `after[i]`.
pub open spec fn left_with(
    stored: Decimal,
    entries: Seq<CreateEntryParams>,
    after: Seq<Decimal>,
    id: u128,
    n: int,
) -> Decimal
    decreases n,
{
    if n <= 0 {
        stored
    } else if entries[n - 1].account_id == id {
        after[n - 1]
    } else {
        left_with(stored, entries, after, id, n - 1)
    }
}

/// Whether an entry by itself leaves its account with this balance.
pub open spec fn alone_leaves(account: Account, e: CreateEntryParams, alone: Decimal) -> bool {
    match e.entry_type {
        EntryType::Debit => call_ensures(
            Account::checked_apply_debit,
            (&account, e.amount),
            Some(alone),
        ),
        EntryType::Credit => call_ensures(
            Account::checked_apply_credit,
            (&account, e.amount),
            Some(alone),
        ),
    }
}

/// Whether an entry takes a balance to the next by adding its amount, or the opposite of it.
pub open spec fn adds(
    account: Account,
    e: CreateEntryParams,
    balance: Decimal,
    next: Decimal,
) -> bool {
    exists|change: Decimal| #[trigger]
        call_ensures(Decimal::checked_add, (balance, change), Some(next)) && if effect(
            account.account_type,
            e.entry_type,
            1,
        ) == 1 {
            change == e.amount
        } else {
            call_ensures(Decimal::neg, (e.amount,), change)
        }
}

/// Whether what lies between two balances is in range.
pub open spec fn change_in_range(balance: Decimal, next: Decimal) -> bool {
    exists|change: Decimal| #[trigger]
        call_ensures(Decimal::checked_sub, (next, balance), Some(change))
}

/// Whether the entry at `j` leaves its account with the balance `after[j]`, in range: the first
/// entry on an account debits or credits it, each further one adds its amount to what the ones
/// before have left, or takes it away.
pub open spec fn one_step(
    accounts: Map<u128, Account>,
    entries: Seq<CreateEntryParams>,
    after: Seq<Decimal>,
    j: int,
) -> bool {
    let e = entries[j];
    let account = accounts[e.account_id];
    let before = left_with(account.balance, entries, after, e.account_id, j);
    &&& accounts.contains_key(e.account_id)
    &&& account.version < i64::MAX
    &&& exists|alone: Decimal| #[trigger]
        alone_leaves(account, e, alone) && (!touched(entries, e.account_id, j) ==> after[j]
            == alone)
    &&& touched(entries, e.account_id, j) ==> adds(account, e, before, after[j])
    &&& change_in_range(before, after[j])
}

/// Whether the balances are those that the first `n` entries leave.
spec fn left(
    accounts: Map<u128, Account>,
    entries: Seq<CreateEntryParams>,
    after: Seq<Decimal>,
    n: int,
    balances: Map<u128, Decimal>,
) -> bool {
    forall|id: u128| #[trigger]
        balances.contains_key(id) == touched(entries, id, n) && (balances.contains_key(id)
            ==> balances[id] == left_with(accounts[id].balance, entries, after, id, n))
}

proof fn lemma_untouched(
    stored: Decimal,
    entries: Seq<CreateEntryParams>,
    after: Seq<Decimal>,
    id: u128,
    n: int,
)
    requires
        !touched(entries, id, n),
    ensures
        left_with(stored, entries, after, id, n) == stored,
    decreases n,
{
    if n > 0 {
        lemma_untouched(stored, entries, after, id, n - 1);
    }
}

/// One step from the balances that the entries before have left.
proof fn lemma_one_step(
    accounts: Map<u128, Account>,
    entries: Seq<CreateEntryParams>,
    after: Seq<Decimal>,
    j: int,
    balances: Map<u128, Decimal>,
)
    requires
        one_step(accounts, entries, after, j),
        balances.contains_key(entries[j].account_id) == touched(
            entries,
            entries[j].account_id,
            j,
        ),
        current_balance(accounts, balances, entries[j].account_id) == left_with(
            accounts[entries[j].account_id].balance,
            entries,
            after,
            entries[j].account_id,
            j,
        ),
    ensures
        next_balance(accounts, balances, entries[j]) == Some(after[j]),
        entry_in_range(accounts, balances, entries[j]),
{
    let e = entries[j];
    let account = accounts[e.account_id];
    let before = left_with(account.balance, entries, after, e.account_id, j);
    let alone = choose|alone: Decimal| #[trigger]
        alone_leaves(account, e, alone) && (!touched(entries, e.account_id, j) ==> after[j]
            == alone);
    assert(balance_with(account, e) == Some(alone));
    let change = choose|change: Decimal| #[trigger]
        call_ensures(Decimal::checked_sub, (after[j], before), Some(change));
    assert(decimal_difference(after[j], before) == Some(change));
    if touched(entries, e.account_id, j) {
        let added = choose|added: Decimal| #[trigger]
            call_ensures(Decimal::checked_add, (before, added), Some(after[j])) && if effect(
                account.account_type,
                e.entry_type,
                1,
            ) == 1 {
                added == e.amount
            } else {
                call_ensures(Decimal::neg, (e.amount,), added)
            };
        assert(added == change_of(account.account_type, e));
        assert(decimal_sum(before, added) == Some(after[j]));
    }
}

proof fn lemma_steps(
    accounts: Map<u128, Account>,
    entries: Seq<CreateEntryParams>,
    after: Seq<Decimal>,
    n: int,
)
    requires
        0 <= n <= entries.len(),
        forall|j: int| 0 <= j < entries.len() ==> #[trigger] one_step(accounts, entries, after, j),
    ensures
        balances_after(accounts, entries.take(n)) matches Some(balances) && left(
            accounts,
            entries,
            after,
            n,
            balances,
        ),
    decreases n,
{
    if n > 0 {
        let j = n - 1;
        let e = entries[j];
        lemma_steps(accounts, entries, after, j);
        assert(entries.take(n).drop_last() =~= entries.take(j));
        let balances = balances_after(accounts, entries.take(j)).unwrap();
        assert(one_step(accounts, entries, after, j));
        assert(balances.contains_key(e.account_id) == touched(entries, e.account_id, j));
        if !balances.contains_key(e.account_id) {
            lemma_untouched(accounts[e.account_id].balance, entries, after, e.account_id, j);
        }
        lemma_one_step(accounts, entries, after, j, balances);
        let next = balances.insert(e.account_id, after[j]);
        assert(balances_after(accounts, entries.take(n)) == Some(next));
        assert forall|id: u128| #[trigger]
            next.contains_key(id) == touched(entries, id, n) && (next.contains_key(id) ==> next[id]
                == left_with(accounts[id].balance, entries, after, id, n)) by {
            assert(balances.contains_key(id) == touched(entries, id, j));
        }
    }
}

/// A plan overflows only where a step does: where every entry has its account, with a version that
/// can go up, and leaves it with a balance in range, step by step, rounded or not, the entries are
/// posted, with these balances.
pub proof fn law_a_plan_overflows_only_where_a_step_does(
    authorized: AuthorizedPosting,
    after: Seq<Decimal>,
    r: Result<PostingPlan, Overflow>,
)
    requires
        call_ensures(AuthorizedPosting::plan, (authorized,), r),
        forall|j: int|
            0 <= j < authorized@.entries.len() ==> #[trigger] one_step(
                authorized@.accounts,
                authorized@.entries,
                after,
                j,
            ),
    ensures
        r is Ok,
        r matches Ok(plan) ==> forall|j: int|
            0 <= j < plan.postings.len() ==> (#[trigger] plan.postings@[j]).balance_after
                == after[j],
{
    let accounts = authorized@.accounts;
    let entries = authorized@.entries;
    let n = entries.len() as int;
    lemma_steps(accounts, entries, after, n);
    assert(entries.take(n) =~= entries);
    let plan = r->Ok_0;
    assert forall|j: int| 0 <= j < plan.postings.len() implies (
    #[trigger] plan.postings@[j]).balance_after == after[j] by {
        lemma_plan_step(accounts, entries, after, plan.postings@, j);
    }
}

proof fn lemma_plan_step(
    accounts: Map<u128, Account>,
    entries: Seq<CreateEntryParams>,
    after: Seq<Decimal>,
    postings: Seq<Posting>,
    j: int,
)
    requires
        0 <= j < entries.len(),
        forall|i: int| 0 <= i < entries.len() ==> #[trigger] one_step(accounts, entries, after, i),
        postings_of(accounts, entries, postings),
    ensures
        postings[j].balance_after == after[j],
{
    lemma_steps(accounts, entries, after, j);
    let e = entries[j];
    let balances = balances_after(accounts, entries.take(j)).unwrap();
    assert(posting_of(accounts, balances, e, postings[j]));
    assert(one_step(accounts, entries, after, j));
    assert(balances.contains_key(e.account_id) == touched(entries, e.account_id, j));
    if !balances.contains_key(e.account_id) {
        lemma_untouched(accounts[e.account_id].balance, entries, after, e.account_id, j);
    }
    lemma_one_step(accounts, entries, after, j, balances);
}

/// A posting that is let through is the one that was asked for: its transaction and entries are
/// those that waited for the accounts, and its accounts are the rows that were locked.
pub proof fn law_what_is_let_through_is_what_waited(
    pending: PendingPosting,
    rows: Vec<Account>,
    authorized: AuthorizedPosting,
    t: &CreateTransactionParams,
    id: u128,
    k: int,
)
    requires
        call_ensures(PendingPosting::locked, (pending, rows), Ok(authorized)),
        call_ensures(AuthorizedPosting::transaction, (&authorized,), t),
    ensures
        authorized@.entries == pending@.entries,
        authorized@.transaction == pending@.transaction,
        *t == pending@.transaction,
        row_of(rows@, k, id) ==> authorized@.accounts.contains_key(id) && authorized@.accounts[id]
            == rows@[k],
        authorized@.accounts.contains_key(id) ==> exists|n: int| #[trigger] row_of(rows@, n, id),
{
    lemma_rows(rows@, id);
}

/// From the request to the books: each entry of the request is posted to the row of its account,
/// with its own side, amount, description and metadata, and takes the account from its version to
/// the next. The first entry on an account starts from the balance in the row, and, where some
/// decimal is worth it, leaves that balance moved by the amount of the request: up where a debit
/// meets an asset or expense account or a credit another one, and down otherwise.
pub proof fn law_a_request_is_posted_as_asked_for(
    req: proto::PostTransactionRequest,
    lookup: PostLookup,
    pending: PendingPosting,
    rows: Vec<Account>,
    authorized: AuthorizedPosting,
    plan: PostingPlan,
    i: int,
    k: int,
)
    requires
        waits(req, lookup, pending),
        call_ensures(PendingPosting::locked, (pending, rows), Ok(authorized)),
        call_ensures(AuthorizedPosting::plan, (authorized,), Ok(plan)),
        on_row(req.entries@[i], rows@, k),
        0 <= i < req.entries.len(),
    ensures
        plan.postings.len() == req.entries.len(),
        ({
            let e = req.entries@[i];
            let p = plan.postings@[i];
            let account = rows@[k];
            let first = forall|j: int|
                0 <= j < i ==> uuid_value((#[trigger] req.entries@[j]).account_id@) != Some(
                    account.id,
                );
            &&& p.entry.account_id == account.id
            &&& e.entry_type == 1 <==> p.entry.entry_type is Debit
            &&& e.entry_type == 2 <==> p.entry.entry_type is Credit
            &&& e.amount matches Some(m) && decimal_parse(m.value@) == Some(p.entry.amount)
            &&& stands_for(p.entry.description, e.description@)
            &&& holds_metadata(p.entry.metadata@, e.metadata@)
            &&& p.version_before == account.version
            &&& p.version_after == account.version + 1
            &&& first ==> p.previous_balance == account.balance
            &&& first && account.balance.valid() && p.entry.amount.valid() && representable(
                account.balance.units() + effect(
                    account.account_type,
                    p.entry.entry_type,
                    p.entry.amount.units(),
                ),
            ) ==> p.balance_after.units() == account.balance.units() + effect(
                account.account_type,
                p.entry.entry_type,
                p.entry.amount.units(),
            )
        }),
{
    let accounts = authorized@.accounts;
    let entries = authorized@.entries;
    let id = rows@[k].id;
    law_the_entries_asked_for_are_posted(req, lookup, pending);
    lemma_rows(rows@, id);
    assert(row_of(rows@, k, id));
    assert(uuid_value(req.entries@[i].account_id@) == Some(entries[i].account_id));
    let p = plan.postings@[i];
    let before = balances_after(accounts, entries.take(i)).unwrap();
    assert(posting_of(accounts, before, entries[i], p));
    if forall|j: int|
        0 <= j < i ==> uuid_value((#[trigger] req.entries@[j]).account_id@) != Some(id) {
        assert forall|j: int| 0 <= j < i implies (#[trigger] entries[j]).account_id
            != entries[i].account_id by {
            assert(uuid_value(req.entries@[j].account_id@) == Some(entries[j].account_id));
        }
        law_history_starts_at_the_stored_balance(accounts, entries, plan.postings@, i);
        assert(!before.contains_key(id)) by {
            lemma_in_range(accounts, entries, i);
            law_only_their_accounts_are_touched(accounts, entries.take(i), id);
            if before.contains_key(id) {
                let j = choose|j: int|
                    0 <= j < entries.take(i).len() && (#[trigger] entries.take(i)[j]).account_id
                        == id;
                assert(entries[j].account_id == id);
            }
        }
        if rows@[k].balance.valid() && p.entry.amount.valid() {
            law_representable_sums_are_exact(rows@[k].balance, p.entry.amount);
            law_representable_differences_are_exact(rows@[k].balance, p.entry.amount);
        }
    }
}

/// Where all entries can be posted, the first of them can.
proof fn lemma_in_range(accounts: Map<u128, Account>, entries: Seq<CreateEntryParams>, n: int)
    requires
        0 <= n <= entries.len(),
        balances_after(accounts, entries) is Some,
    ensures
        balances_after(accounts, entries.take(n)) is Some,
{
    if balances_after(accounts, entries.take(n)) is None {
        lemma_out_of_range_stays(accounts, entries, n);
    }
}

/// What is written of an entry agrees: the row of the entry, the row of the balance history and
/// the update of the account have the same account, the same balance after the entry, and the
/// change is what lies between the balances.
pub proof fn law_what_is_written_of_an_entry_agrees(
    authorized: AuthorizedPosting,
    plan: PostingPlan,
    i: int,
    transaction_id: u128,
    entry_id: u128,
    row: NewEntry,
    history: BalanceChange,
    recorded: BalanceChange,
    update: BalanceUpdate,
)
    requires
        call_ensures(AuthorizedPosting::plan, (authorized,), Ok(plan)),
        0 <= i < plan.postings.len(),
        call_ensures(
            TransactionRepository::create_entry,
            (transaction_id, &plan.postings@[i].entry, plan.postings@[i].balance_after),
            row,
        ),
        call_ensures(Posting::history, (&plan.postings@[i], entry_id), history),
        call_ensures(
            AccountRepository::record_balance_history,
            (
                row.account_id,
                entry_id,
                plan.postings@[i].previous_balance,
                row.balance_after,
                plan.postings@[i].version_before,
                plan.postings@[i].version_after,
            ),
            recorded,
        ),
        call_ensures(
            AccountRepository::update_balance_locked,
            (row.account_id, row.balance_after),
            update,
        ),
    ensures
        row.transaction_id == transaction_id,
        row.account_id == authorized@.entries[i].account_id,
        row.entry_type == authorized@.entries[i].entry_type,
        row.amount == authorized@.entries[i].amount,
        history.account_id == row.account_id,
        history.entry_id == entry_id,
        history.new_balance == row.balance_after,
        history.previous_balance == plan.postings@[i].previous_balance,
        history.version_after == history.version_before + 1,
        history == recorded,
        history.previous_balance.valid() && history.new_balance.valid() && representable(
            history.new_balance.units() - history.previous_balance.units(),
        ) ==> history.change_amount.units() == history.new_balance.units()
            - history.previous_balance.units(),
        update.id == row.account_id,
        update.new_balance == row.balance_after,
        update.expected_version is None,
{
    let accounts = authorized@.accounts;
    let entries = authorized@.entries;
    assert(posting_of(
        accounts,
        balances_after(accounts, entries.take(i)).unwrap(),
        entries[i],
        plan.postings@[i],
    ));
    if history.previous_balance.valid() && history.new_balance.valid() {
        law_representable_differences_are_exact(history.new_balance, history.previous_balance);
    }
}

/// The answer to a posted transaction tells of it and of its entries, and that it is new. The
/// event tells that the transaction was committed, under its own id and key, at the time given,
/// and its payload has the number of entries and the id.
pub proof fn law_posted_transactions_are_told_of(
    transaction: Transaction,
    entries: Vec<Entry>,
    now: DateTime,
    r: (proto::PostTransactionResponse, TransactionEvent),
)
    requires
        call_ensures(LedgerServiceImpl::posted_at, (transaction, entries, now), r),
    ensures
        !r.0.already_existed,
        r.0.transaction matches Some(m) && tells_of_transaction(m, transaction, entries@)
            && uuid_value(m.id@) == Some(r.1.transaction_id) && m.idempotency_key@
            == r.1.idempotency_key@,
        r.1.event_type is TransactionCommitted,
        r.1.transaction_id == transaction.id,
        r.1.idempotency_key@ == transaction.idempotency_key@,
        r.1.timestamp == now,
        exists|count: Seq<char>, id: Seq<char>|
            {
                &&& #[trigger] number_read(count) == entries.len()
                &&& #[trigger] uuid_value(id) == Some(transaction.id)
                &&& r.1.payload@ == "{\"entry_count\":"@ + count
                    + ",\"status\":\"committed\",\"transaction_id\":\""@ + id + "\"}"@
            },
{
    lemma_transaction_message(transaction, entries@, r.0.transaction.unwrap());
    law_id_text_parses_back(transaction.id);
    law_numbers_are_read_back(entries@.len());
    let count = nat_text(entries@.len());
    let id = uuid_text(transaction.id);
    assert(number_read(count) == entries.len() && uuid_value(id) == Some(transaction.id));
}

/// A transaction is told of in the same way whether it has just been posted now, at a given time,
/// or is asked for later.
pub proof fn law_posted_transactions_are_shown_as_stored(
    transaction: Transaction,
    entries: Vec<Entry>,
    now: DateTime,
    r: (proto::PostTransactionResponse, TransactionEvent),
    at: (proto::PostTransactionResponse, TransactionEvent),
)
    requires
        call_ensures(LedgerServiceImpl::posted, (transaction, entries), r),
        call_ensures(LedgerServiceImpl::posted_at, (transaction, entries, now), at),
    ensures
        !r.0.already_existed,
        r.0.transaction matches Some(m) && tells_of_transaction(m, transaction, entries@),
        r.1.event_type == at.1.event_type,
        r.1.transaction_id == at.1.transaction_id,
        r.1.idempotency_key@ == at.1.idempotency_key@,
        r.1.payload@ == at.1.payload@,
        0 <= r.1.timestamp.seconds && r.1.timestamp.nanos < 1_000_000_000,
{
    lemma_transaction_message(transaction, entries@, r.0.transaction.unwrap());
}

} // verus!
