//! The rules of accounts, entries and transactions.
use vstd::prelude::*;
use vstd::utf8::encode_utf8;

use crate::decimal::{
    law_representable_differences_are_exact, law_representable_sums_are_exact, representable,
    Decimal, Overflow,
};
use crate::domain::account::{Account, AccountType, CreateAccountParams};
use crate::domain::entry::{
    lemma_no_sum_of_more, side_sum, CreateEntryParams, EntrySet, EntryType,
};
use crate::domain::transaction::{CreateTransactionParams, TransactionEventType};
use crate::laws::messages::lemma_zero;
use crate::laws::plans::effect;

verus! {

/// Debits raise asset and expense accounts, credits raise the others, and no account is raised by
/// both.
pub proof fn law_the_normal_side_of_an_account(t: AccountType, debit: bool, credit: bool)
    requires
        call_ensures(AccountType::is_debit_normal, (&t,), debit),
        call_ensures(AccountType::is_credit_normal, (&t,), credit),
    ensures
        debit <==> t is Asset || t is Expense,
        credit <==> t is Liability || t is Equity || t is Revenue,
        debit != credit,
{
}

/// An active account can always be credited, and always be debited unless it is an asset or
/// expense account with less available than the amount. An account that is not active can be
/// neither.
pub proof fn law_what_an_account_can_take(
    account: Account,
    amount: Decimal,
    debit: bool,
    credit: bool,
)
    requires
        call_ensures(Account::can_debit, (&account, amount), debit),
        call_ensures(Account::can_credit, (&account, amount), credit),
    ensures
        credit <==> account.status is Active,
        debit <==> account.status is Active && ((account.account_type is Asset
            || account.account_type is Expense) ==> amount.units()
            <= account.available_balance.units()),
        debit ==> credit,
{
}

/// What can be debited of a larger amount can be debited of a smaller one, and what an account
/// with less available can take, one with more can.
pub proof fn law_less_is_easier_to_debit(
    account: Account,
    richer: Account,
    amount: Decimal,
    smaller: Decimal,
    can: bool,
    can_less: bool,
    richer_can: bool,
)
    requires
        call_ensures(Account::can_debit, (&account, amount), can),
        call_ensures(Account::can_debit, (&account, smaller), can_less),
        call_ensures(Account::can_debit, (&richer, amount), richer_can),
        smaller.units() <= amount.units(),
        richer.status == account.status,
        richer.account_type == account.account_type,
        richer.available_balance.units() >= account.available_balance.units(),
    ensures
        can ==> can_less,
        can ==> richer_can,
{
}

/// A debit and a credit move the balance by the amount, in the direction that the type of the
/// account says, wherever some decimal is worth the balance after. Then they are in range, and
/// however the balance is worked out, it is the same.
pub proof fn law_debits_and_credits_move_the_balance(
    account: Account,
    amount: Decimal,
    debited: Option<Decimal>,
    credited: Option<Decimal>,
)
    requires
        account.balance.valid(),
        amount.valid(),
        call_ensures(Account::checked_apply_debit, (&account, amount), debited),
        call_ensures(Account::checked_apply_credit, (&account, amount), credited),
    ensures
        representable(
            account.balance.units() + effect(
                account.account_type,
                EntryType::Debit,
                amount.units(),
            ),
        ) ==> (debited matches Some(d) && d.units() == account.balance.units() + effect(
            account.account_type,
            EntryType::Debit,
            amount.units(),
        )),
        representable(
            account.balance.units() + effect(
                account.account_type,
                EntryType::Credit,
                amount.units(),
            ),
        ) ==> (credited matches Some(c) && c.units() == account.balance.units() + effect(
            account.account_type,
            EntryType::Credit,
            amount.units(),
        )),
        debited matches Some(d) ==> forall|r: Decimal|
            #![trigger call_ensures(Account::apply_debit, (&account, amount), r)]
            call_ensures(Account::apply_debit, (&account, amount), r) ==> r == d,
        credited matches Some(c) ==> forall|r: Decimal|
            #![trigger call_ensures(Account::apply_credit, (&account, amount), r)]
            call_ensures(Account::apply_credit, (&account, amount), r) ==> r == c,
{
    law_representable_sums_are_exact(account.balance, amount);
    law_representable_differences_are_exact(account.balance, amount);
}

/// A debit on an asset or expense account adds the amount to the balance, and a credit on one takes
/// it away. On any other account it is the other way round. This holds of every balance and
/// amount, rounded or not, in range or not.
pub proof fn law_debits_and_credits_add_or_subtract(
    account: Account,
    amount: Decimal,
    debited: Option<Decimal>,
    credited: Option<Decimal>,
    sum: Option<Decimal>,
    difference: Option<Decimal>,
)
    requires
        call_ensures(Account::checked_apply_debit, (&account, amount), debited),
        call_ensures(Account::checked_apply_credit, (&account, amount), credited),
        call_ensures(Decimal::checked_add, (account.balance, amount), sum),
        call_ensures(Decimal::checked_sub, (account.balance, amount), difference),
    ensures
        account.account_type is Asset || account.account_type is Expense ==> debited == sum
            && credited == difference,
        account.account_type is Liability || account.account_type is Equity
            || account.account_type is Revenue ==> debited == difference && credited == sum,
{
}

/// What a new account needs: a name, a currency of three bytes, and no negative balance. What is
/// missing is told, in this order.
pub proof fn law_what_a_new_account_needs(
    params: CreateAccountParams,
    r: Result<(), &'static str>,
)
    requires
        call_ensures(CreateAccountParams::validate, (&params,), r),
    ensures
        r is Ok <==> params.name@.len() > 0 && encode_utf8(params.currency@).len() == 3 && (
        params.initial_balance matches Some(b) ==> b.units() >= 0),
        params.name@.len() == 0 ==> (r matches Err(m) && m@ == "Account name cannot be empty"@),
        params.name@.len() > 0 && encode_utf8(params.currency@).len() != 3 ==> (r matches Err(m)
            && m@ == "Currency must be 3 characters (ISO 4217)"@),
        params.name@.len() > 0 && encode_utf8(params.currency@).len() == 3 ==> (r matches Err(m)
            ==> m@ == "Initial balance cannot be negative"@),
{
}

/// What a new transaction needs: a key of 1 to 255 bytes.
pub proof fn law_what_a_new_transaction_needs(
    params: CreateTransactionParams,
    r: Result<(), &'static str>,
)
    requires
        call_ensures(CreateTransactionParams::validate, (&params,), r),
    ensures
        r is Ok <==> params.idempotency_key@.len() > 0 && encode_utf8(
            params.idempotency_key@,
        ).len() <= 255,
        params.idempotency_key@.len() == 0 ==> (r matches Err(m) && m@
            == "Idempotency key is required"@),
        params.idempotency_key@.len() > 0 ==> (r matches Err(m) ==> m@
            == "Idempotency key must be 255 characters or less"@),
{
}

/// An entry needs an amount of more than zero, on either side.
pub proof fn law_entries_need_a_positive_amount(
    account_id: u128,
    amount: Decimal,
    debit: CreateEntryParams,
    credit: CreateEntryParams,
    debit_ok: Result<(), &'static str>,
    credit_ok: Result<(), &'static str>,
)
    requires
        call_ensures(CreateEntryParams::debit, (account_id, amount), debit),
        call_ensures(CreateEntryParams::credit, (account_id, amount), credit),
        call_ensures(CreateEntryParams::validate, (&debit,), debit_ok),
        call_ensures(CreateEntryParams::validate, (&credit,), credit_ok),
    ensures
        debit_ok is Ok <==> amount.units() > 0,
        credit_ok is Ok <==> amount.units() > 0,
        debit.account_id == account_id && credit.account_id == account_id,
        debit.amount == amount && credit.amount == amount,
        debit.entry_type is Debit && credit.entry_type is Credit,
{
}

/// The opposite of a debit is a credit and the opposite of a credit a debit.
pub proof fn law_the_opposite_side(side: EntryType, r: EntryType, back: EntryType)
    requires
        call_ensures(EntryType::opposite, (&side,), r),
        call_ensures(EntryType::opposite, (&r,), back),
    ensures
        side is Debit <==> r is Credit,
        side is Credit <==> r is Debit,
        back == side,
{
}

/// What the first `n` entries on one side are worth together.
pub open spec fn worth(entries: Seq<CreateEntryParams>, side: EntryType, n: int) -> int
    decreases n,
{
    if n <= 0 {
        0
    } else {
        worth(entries, side, n - 1) + if entries[n - 1].entry_type == side {
            entries[n - 1].amount.units()
        } else {
            0
        }
    }
}

/// Whether some decimal is worth each partial sum of a side, so that adding up rounds nothing.
pub open spec fn sums_up(entries: Seq<CreateEntryParams>, side: EntryType) -> bool {
    forall|n: int| 0 <= n <= entries.len() ==> representable(#[trigger] worth(entries, side, n))
}

proof fn lemma_worth_of_prefix(
    entries: Seq<CreateEntryParams>,
    shorter: Seq<CreateEntryParams>,
    side: EntryType,
    n: int,
)
    requires
        n <= shorter.len() <= entries.len(),
        forall|i: int| 0 <= i < shorter.len() ==> shorter[i] == entries[i],
    ensures
        worth(entries, side, n) == worth(shorter, side, n),
    decreases n,
{
    if n > 0 {
        lemma_worth_of_prefix(entries, shorter, side, n - 1);
        assert(shorter[n - 1] == entries[n - 1]);
    }
}

proof fn lemma_side_sum(entries: Seq<CreateEntryParams>, side: EntryType)
    requires
        forall|i: int| 0 <= i < entries.len() ==> (#[trigger] entries[i]).amount.valid(),
        sums_up(entries, side),
    ensures
        side_sum(entries, side) matches Some(sum) && sum.valid() && sum.units() == worth(
            entries,
            side,
            entries.len() as int,
        ),
    decreases entries.len(),
{
    if entries.len() == 0 {
        lemma_zero();
    } else {
        let before = entries.drop_last();
        let n = entries.len() as int;
        assert forall|i: int| 0 <= i < before.len() implies (
        #[trigger] before[i]).amount.valid() by {
            assert(entries[i].amount.valid());
        }
        assert forall|k: int| 0 <= k <= before.len() implies representable(
            #[trigger] worth(before, side, k),
        ) by {
            lemma_worth_of_prefix(entries, before, side, k);
            assert(representable(worth(entries, side, k)));
        }
        lemma_side_sum(before, side);
        lemma_worth_of_prefix(entries, before, side, n - 1);
        assert(entries[n - 1].amount.valid());
        if entries[n - 1].entry_type == side {
            assert(representable(worth(entries, side, n)));
            law_representable_sums_are_exact(
                side_sum(before, side).unwrap(),
                entries[n - 1].amount,
            );
        }
    }
}

/// Double entry: two or more entries are a set exactly where their debits are worth as much as
/// their credits, and the set has these entries in this order. This holds wherever no sum has to
/// be rounded, and then none is out of range.
pub proof fn law_a_set_is_made_where_it_balances(
    entries: Vec<CreateEntryParams>,
    r: Result<Result<EntrySet, &'static str>, Overflow>,
)
    requires
        call_ensures(EntrySet::checked_new, (entries,), r),
        forall|i: int| 0 <= i < entries.len() ==> (#[trigger] entries@[i]).amount.valid(),
        sums_up(entries@, EntryType::Debit),
        sums_up(entries@, EntryType::Credit),
    ensures
        r is Ok,
        r matches Ok(Ok(_)) <==> entries.len() >= 2 && worth(
            entries@,
            EntryType::Debit,
            entries.len() as int,
        ) == worth(entries@, EntryType::Credit, entries.len() as int),
        r matches Ok(Ok(set)) ==> set@ == entries@,
        entries.len() < 2 ==> (r matches Ok(Err(m)) && m@
            == "Transaction must have at least 2 entries"@),
        entries.len() >= 2 ==> (r matches Ok(Err(m)) ==> m@
            == "Debits must equal credits (double-entry balance violation)"@),
{
    lemma_side_sum(entries@, EntryType::Debit);
    lemma_side_sum(entries@, EntryType::Credit);
}

/// Whether `sums` are the partial sums of one side, each made from the one before by adding the
/// amount of an entry on that side.
pub open spec fn partial_sums(
    entries: Seq<CreateEntryParams>,
    side: EntryType,
    sums: Seq<Decimal>,
) -> bool {
    &&& sums.len() == entries.len() + 1
    &&& call_ensures(Decimal::zero, (), sums[0])
    &&& forall|i: int|
        0 <= i < entries.len() ==> if (#[trigger] entries[i]).entry_type == side {
            call_ensures(Decimal::checked_add, (sums[i], entries[i].amount), Some(sums[i + 1]))
        } else {
            sums[i + 1] == sums[i]
        }
}

proof fn lemma_partial_sums(
    entries: Seq<CreateEntryParams>,
    side: EntryType,
    sums: Seq<Decimal>,
    n: int,
)
    requires
        partial_sums(entries, side, sums),
        0 <= n <= entries.len(),
    ensures
        side_sum(entries.take(n), side) == Some(sums[n]),
    decreases n,
{
    if n > 0 {
        lemma_partial_sums(entries, side, sums, n - 1);
        assert(entries.take(n).drop_last() =~= entries.take(n - 1));
        assert(entries.take(n).last() == entries[n - 1]);
    }
}

/// Rounded or not, entries are held against each other by adding them up one after the other: two
/// or more of them are a set exactly where both sums come out worth the same, and these are the
/// totals of the set.
pub proof fn law_sides_are_added_up_in_order(
    entries: Vec<CreateEntryParams>,
    debits: Seq<Decimal>,
    credits: Seq<Decimal>,
    r: Result<Result<EntrySet, &'static str>, Overflow>,
    total_debits: Decimal,
    total_credits: Decimal,
)
    requires
        partial_sums(entries@, EntryType::Debit, debits),
        partial_sums(entries@, EntryType::Credit, credits),
        call_ensures(EntrySet::checked_new, (entries,), r),
        r matches Ok(Ok(set)) ==> call_ensures(EntrySet::total_debits, (&set,), total_debits),
        r matches Ok(Ok(set)) ==> call_ensures(EntrySet::total_credits, (&set,), total_credits),
    ensures
        r is Ok,
        r matches Ok(Ok(_)) <==> entries.len() >= 2 && debits.last().units()
            == credits.last().units(),
        r matches Ok(Ok(_)) ==> total_debits == debits.last() && total_credits == credits.last(),
{
    let n = entries.len() as int;
    lemma_partial_sums(entries@, EntryType::Debit, debits, n);
    lemma_partial_sums(entries@, EntryType::Credit, credits, n);
    assert(entries@.take(n) =~= entries@);
}

/// A sum that leaves the range is an overflow, whatever entries follow.
pub proof fn law_a_sum_out_of_range_is_an_overflow(
    entries: Vec<CreateEntryParams>,
    side: EntryType,
    i: int,
    sums: Seq<Decimal>,
    r: Result<Result<EntrySet, &'static str>, Overflow>,
)
    requires
        0 <= i < entries.len(),
        entries.len() >= 2,
        partial_sums(entries@.take(i), side, sums),
        entries@[i].entry_type == side,
        call_ensures(Decimal::checked_add, (sums[i], entries@[i].amount), None),
        call_ensures(EntrySet::checked_new, (entries,), r),
    ensures
        r is Err,
{
    lemma_partial_sums(entries@.take(i), side, sums, i);
    assert(entries@.take(i).take(i) =~= entries@.take(i));
    assert(entries@.take(i + 1).drop_last() =~= entries@.take(i));
    lemma_no_sum_of_more(entries@, i + 1, side);
}

/// The same is said of making a set of entries whose sums are in range.
pub proof fn law_both_ways_of_making_a_set_agree(
    entries: Vec<CreateEntryParams>,
    made: Result<EntrySet, &'static str>,
    r: Result<Result<EntrySet, &'static str>, Overflow>,
)
    requires
        call_ensures(EntrySet::new, (entries,), made),
        call_ensures(EntrySet::checked_new, (entries,), r),
        r is Ok,
    ensures
        match r->Ok_0 {
            Ok(set) => made matches Ok(other) && other@ == set@,
            Err(message) => made matches Err(other) && other@ == message@,
        },
{
}

/// The two totals of a set are worth the same, and are what its debits and its credits are worth,
/// wherever no sum has to be rounded. A set always balances, and hands its entries out as they
/// are.
pub proof fn law_the_totals_of_a_set(
    set: EntrySet,
    debits: Decimal,
    credits: Decimal,
    balanced: Result<(), &'static str>,
    entries: &[CreateEntryParams],
    owned: Vec<CreateEntryParams>,
)
    requires
        call_ensures(EntrySet::total_debits, (&set,), debits),
        call_ensures(EntrySet::total_credits, (&set,), credits),
        call_ensures(EntrySet::validate_balance, (&set,), balanced),
        call_ensures(EntrySet::entries, (&set,), entries),
        call_ensures(EntrySet::into_entries, (set,), owned),
        forall|i: int| 0 <= i < set@.len() ==> (#[trigger] set@[i]).amount.valid(),
        sums_up(set@, EntryType::Debit),
        sums_up(set@, EntryType::Credit),
    ensures
        debits.units() == worth(set@, EntryType::Debit, set@.len() as int),
        credits.units() == worth(set@, EntryType::Credit, set@.len() as int),
        debits.units() == credits.units(),
        balanced is Ok,
        entries@ == set@,
        owned@ == set@,
        set@.len() >= 2,
{
    lemma_side_sum(set@, EntryType::Debit);
    lemma_side_sum(set@, EntryType::Credit);
}

/// The names of the events.
pub proof fn law_the_names_of_the_events(e: TransactionEventType, name: &'static str)
    requires
        call_ensures(TransactionEventType::as_str, (&e,), name),
    ensures
        name@ == "transaction.created"@ <==> e is TransactionCreated,
        name@ == "transaction.committed"@ <==> e is TransactionCommitted,
        name@ == "transaction.failed"@ <==> e is TransactionFailed,
        name@ == "transaction.reversed"@ <==> e is TransactionReversed,
{
    reveal_strlit("transaction.created");
    reveal_strlit("transaction.committed");
    reveal_strlit("transaction.failed");
    reveal_strlit("transaction.reversed");
    assert("transaction.created"@[13] == 'r');
    assert("transaction.committed"@[13] == 'o');
    assert("transaction.failed"@[13] == 'a');
    assert("transaction.reversed"@[13] == 'e');
}

} // verus!
