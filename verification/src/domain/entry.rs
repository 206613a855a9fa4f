//! Entries, and sets of entries that balance.
use vstd::prelude::*;

use crate::clock::DateTime;
use crate::decimal::{
    decimal_sum, law_representable_sums_are_exact, representable, Decimal, Overflow,
};
use crate::json::no_metadata;

verus! {

#[derive(Debug, Clone, Copy, PartialEq, Eq, Structural)]
pub enum EntryType {
    Debit,
    Credit,
}

impl EntryType {
    pub open spec fn other_side(self) -> EntryType {
        match self {
            EntryType::Debit => EntryType::Credit,
            EntryType::Credit => EntryType::Debit,
        }
    }

    pub fn opposite(&self) -> (r: Self)
        ensures
            r == self.other_side(),
    {
        match self {
            EntryType::Debit => EntryType::Credit,
            EntryType::Credit => EntryType::Debit,
        }
    }
}

/// An entry as it is stored. The metadata is the text of a JSON value.
#[derive(Debug, Clone)]
pub struct Entry {
    pub id: u128,
    pub transaction_id: u128,
    pub account_id: u128,
    pub entry_type: EntryType,
    pub amount: Decimal,
    pub description: Option<String>,
    pub balance_after: Option<Decimal>,
    pub metadata: String,
    pub created_at: DateTime,
}

/// What a new entry is made from. The metadata is the text of a JSON value.
#[derive(Debug)]
pub struct CreateEntryParams {
    pub account_id: u128,
    pub entry_type: EntryType,
    pub amount: Decimal,
    pub description: Option<String>,
    pub metadata: String,
}

impl Clone for CreateEntryParams {
    fn clone(&self) -> (r: Self)
        ensures
            r == *self,
    {
        let r = CreateEntryParams {
            account_id: self.account_id,
            entry_type: self.entry_type,
            amount: self.amount,
            description: self.description.clone(),
            metadata: self.metadata.clone(),
        };
        assert(r.description == self.description);
        r
    }
}

impl CreateEntryParams {
    pub fn validate(&self) -> (r: Result<(), &'static str>)
        ensures
            r is Ok <==> self.amount.units() > 0,
            r matches Err(message) ==> message@ == "Entry amount must be positive"@,
    {
        if !Decimal::zero().less_than(self.amount) {
            return Err("Entry amount must be positive");
        }
        Ok(())
    }

    pub fn debit(account_id: u128, amount: Decimal) -> (r: Self)
        ensures
            r.account_id == account_id,
            r.entry_type is Debit,
            r.amount == amount,
            r.description is None,
            r.metadata@ == "{}"@,
    {
        Self {
            account_id,
            entry_type: EntryType::Debit,
            amount,
            description: None,
            metadata: no_metadata(),
        }
    }

    pub fn credit(account_id: u128, amount: Decimal) -> (r: Self)
        ensures
            r.account_id == account_id,
            r.entry_type is Credit,
            r.amount == amount,
            r.description is None,
            r.metadata@ == "{}"@,
    {
        Self {
            account_id,
            entry_type: EntryType::Credit,
            amount,
            description: None,
            metadata: no_metadata(),
        }
    }
}

/// The sum of the amounts on one side, added up in order, if no step is out of range.
pub open spec fn side_sum(entries: Seq<CreateEntryParams>, side: EntryType) -> Option<Decimal>
    decreases entries.len(),
{
    if entries.len() == 0 {
        Some(Decimal::of(0, 0))
    } else {
        match side_sum(entries.drop_last(), side) {
            None => None,
            Some(sum) => if entries.last().entry_type == side {
                decimal_sum(sum, entries.last().amount)
            } else {
                Some(sum)
            },
        }
    }
}

/// Whether both sides can be added up.
pub open spec fn sums_in_range(entries: Seq<CreateEntryParams>) -> bool {
    side_sum(entries, EntryType::Debit) is Some && side_sum(entries, EntryType::Credit) is Some
}

/// Whether the debits add up to the same amount as the credits.
pub open spec fn balanced(entries: Seq<CreateEntryParams>) -> bool {
    side_sum(entries, EntryType::Debit) matches Some(debits) && side_sum(
        entries,
        EntryType::Credit,
    ) matches Some(credits) && debits.units() == credits.units()
}

/// The first rule that a list of entries breaks.
pub open spec fn entries_problem(entries: Seq<CreateEntryParams>) -> Option<Seq<char>> {
    if entries.len() < 2 {
        Some("Transaction must have at least 2 entries"@)
    } else if !balanced(entries) {
        Some("Debits must equal credits (double-entry balance violation)"@)
    } else {
        None
    }
}

/// The value of the amounts on one side, in units of `10^-28`.
pub open spec fn side_units(entries: Seq<CreateEntryParams>, side: EntryType) -> int
    decreases entries.len(),
{
    if entries.len() == 0 {
        0
    } else {
        side_units(entries.drop_last(), side) + if entries.last().entry_type == side {
            entries.last().amount.units()
        } else {
            0
        }
    }
}

/// Whether every step of adding up one side is exact: some decimal is worth each partial sum.
pub open spec fn sums_exact(entries: Seq<CreateEntryParams>, side: EntryType) -> bool
    decreases entries.len(),
{
    entries.len() > 0 ==> representable(side_units(entries, side)) && sums_exact(
        entries.drop_last(),
        side,
    )
}

/// Whether all amounts are valid decimals.
pub open spec fn amounts_valid(entries: Seq<CreateEntryParams>) -> bool {
    forall|i: int| 0 <= i < entries.len() ==> (#[trigger] entries[i]).amount.valid()
}

/// Both sides of a list of entries, or nothing where one of them is out of range.
fn add_up(entries: &Vec<CreateEntryParams>) -> (r: Option<(Decimal, Decimal)>)
    ensures
        r is Some <==> sums_in_range(entries@),
        r matches Some((debits, credits)) ==> side_sum(entries@, EntryType::Debit) == Some(debits)
            && side_sum(entries@, EntryType::Credit) == Some(credits),
{
    let mut debit_sum = Decimal::zero();
    let mut credit_sum = Decimal::zero();
    let mut i: usize = 0;
    while i < entries.len()
        invariant
            i <= entries.len(),
            side_sum(entries@.take(i as int), EntryType::Debit) == Some(debit_sum),
            side_sum(entries@.take(i as int), EntryType::Credit) == Some(credit_sum),
        decreases entries.len() - i,
    {
        let entry = &entries[i];
        assert(entries@.take(i + 1).drop_last() =~= entries@.take(i as int));
        match entry.entry_type {
            EntryType::Debit => {
                match debit_sum.checked_add(entry.amount) {
                    Some(sum) => {
                        debit_sum = sum;
                    },
                    None => {
                        proof {
                            lemma_no_sum_of_more(entries@, i + 1, EntryType::Debit);
                        }
                        return None;
                    },
                }
            },
            EntryType::Credit => {
                match credit_sum.checked_add(entry.amount) {
                    Some(sum) => {
                        credit_sum = sum;
                    },
                    None => {
                        proof {
                            lemma_no_sum_of_more(entries@, i + 1, EntryType::Credit);
                        }
                        return None;
                    },
                }
            },
        }
        i += 1;
    }
    assert(entries@.take(i as int) =~= entries@);
    Some((debit_sum, credit_sum))
}

/// A sum that is out of range stays so as more entries come.
pub proof fn lemma_no_sum_of_more(entries: Seq<CreateEntryParams>, n: int, side: EntryType)
    requires
        0 <= n <= entries.len(),
        side_sum(entries.take(n), side) is None,
    ensures
        side_sum(entries, side) is None,
    decreases entries.len() - n,
{
    if n == entries.len() {
        assert(entries.take(n) =~= entries);
    } else {
        assert(entries.take(n + 1).drop_last() =~= entries.take(n));
        lemma_no_sum_of_more(entries, n + 1, side);
    }
}

/// At least two entries whose debits add up to the same amount as their credits.
#[derive(Debug)]
pub struct EntrySet {
    entries: Vec<CreateEntryParams>,
}

impl Clone for EntrySet {
    fn clone(&self) -> (r: Self)
        ensures
            r@ == self@,
    {
        proof {
            use_type_invariant(self);
        }
        let entries = self.entries.clone();
        assert(entries@ =~= self.entries@);
        EntrySet { entries }
    }
}

impl View for EntrySet {
    type V = Seq<CreateEntryParams>;

    closed spec fn view(&self) -> Seq<CreateEntryParams> {
        self.entries@
    }
}

impl EntrySet {
    /// What every set of entries keeps to.
    #[verifier::type_invariant]
    pub closed spec fn valid(self) -> bool {
        entries_problem(self.entries@) is None
    }

    /// Whether the entries balance. Both sums must be in range.
    fn check_balance(entries: &Vec<CreateEntryParams>) -> (r: Result<(), &'static str>)
        requires
            sums_in_range(entries@),
        ensures
            r is Ok <==> balanced(entries@),
            r matches Err(message) ==> message@
                == "Debits must equal credits (double-entry balance violation)"@,
    {
        let (debit_sum, credit_sum) = add_up(entries).unwrap();
        if !debit_sum.equals(credit_sum) {
            return Err("Debits must equal credits (double-entry balance violation)");
        }
        Ok(())
    }

    /// The set of these entries, if they are one. Where there are two or more, both sides must
    /// be in range.
    pub fn new(entries: Vec<CreateEntryParams>) -> (r: Result<Self, &'static str>)
        requires
            entries.len() >= 2 ==> sums_in_range(entries@),
        ensures
            match r {
                Ok(set) => entries_problem(entries@) is None && set@ == entries@,
                Err(message) => entries_problem(entries@) == Some(message@),
            },
    {
        if entries.len() < 2 {
            return Err("Transaction must have at least 2 entries");
        }
        match Self::check_balance(&entries) {
            Ok(_) => Ok(Self { entries }),
            Err(message) => Err(message),
        }
    }

    /// The set of these entries, if they are one, or an overflow where a side is out of range.
    pub fn checked_new(entries: Vec<CreateEntryParams>) -> (r: Result<
        Result<Self, &'static str>,
        Overflow,
    >)
        ensures
            r is Err <==> entries.len() >= 2 && !sums_in_range(entries@),
            r matches Ok(Ok(set)) ==> entries_problem(entries@) is None && set@ == entries@,
            r matches Ok(Err(message)) ==> entries_problem(entries@) == Some(message@),
    {
        if entries.len() >= 2 && add_up(&entries).is_none() {
            return Err(Overflow);
        }
        Ok(Self::new(entries))
    }

    /// Adds both sides up again. That a set balances is what makes it one, so this never fails.
    pub fn validate_balance(&self) -> (r: Result<(), &'static str>)
        ensures
            r is Ok <==> balanced(self@),
            r is Ok,
    {
        proof {
            use_type_invariant(self);
        }
        Self::check_balance(&self.entries)
    }

    pub fn entries(&self) -> (r: &[CreateEntryParams])
        ensures
            r@ == self@,
            entries_problem(r@) is None,
    {
        proof {
            use_type_invariant(self);
        }
        self.entries.as_slice()
    }

    pub fn into_entries(self) -> (r: Vec<CreateEntryParams>)
        ensures
            r@ == self@,
            entries_problem(r@) is None,
    {
        proof {
            use_type_invariant(&self);
        }
        self.entries
    }

    /// The sum of the debits, which is worth as much as that of the credits.
    pub fn total_debits(&self) -> (r: Decimal)
        ensures
            side_sum(self@, EntryType::Debit) == Some(r),
            side_sum(self@, EntryType::Credit) matches Some(credits) && credits.units()
                == r.units(),
    {
        proof {
            use_type_invariant(self);
        }
        add_up(&self.entries).unwrap().0
    }

    /// The sum of the credits, which is worth as much as that of the debits.
    pub fn total_credits(&self) -> (r: Decimal)
        ensures
            side_sum(self@, EntryType::Credit) == Some(r),
            side_sum(self@, EntryType::Debit) matches Some(debits) && debits.units() == r.units(),
    {
        proof {
            use_type_invariant(self);
        }
        add_up(&self.entries).unwrap().1
    }
}

/// Taking the other side twice leads back.
pub proof fn law_opposite_is_an_involution(side: EntryType)
    ensures
        side.other_side() != side,
        side.other_side().other_side() == side,
{
}

/// Where every step of adding up is exact, the sum of a side is the sum of its amounts.
pub proof fn law_side_sum_exact(entries: Seq<CreateEntryParams>, side: EntryType)
    requires
        amounts_valid(entries),
        sums_exact(entries, side),
    ensures
        side_sum(entries, side) matches Some(sum) && sum.valid() && sum.units() == side_units(
            entries,
            side,
        ),
    decreases entries.len(),
{
    if entries.len() == 0 {
        crate::decimal::lemma_of(0, 0);
        assert(Decimal::of(0, 0).units() == 0);
    } else {
        let before = entries.drop_last();
        assert forall|i: int| 0 <= i < before.len() implies (#[trigger] before[i]).amount.valid() by {
            assert(entries[i].amount.valid());
        }
        law_side_sum_exact(before, side);
        let last = entries[entries.len() - 1];
        assert(last.amount.valid());
        if last.entry_type == side {
            law_representable_sums_are_exact(side_sum(before, side).unwrap(), last.amount);
        }
    }
}

/// Double entry: where every step of adding up is exact, the debits of entries that balance are
/// worth as much as their credits.
pub proof fn law_debits_equal_credits(entries: Seq<CreateEntryParams>)
    requires
        balanced(entries),
        amounts_valid(entries),
        sums_exact(entries, EntryType::Debit),
        sums_exact(entries, EntryType::Credit),
    ensures
        side_units(entries, EntryType::Debit) == side_units(entries, EntryType::Credit),
{
    law_side_sum_exact(entries, EntryType::Debit);
    law_side_sum_exact(entries, EntryType::Credit);
}

/// What one entry adds to a side.
spec fn entry_units(e: CreateEntryParams, side: EntryType) -> int {
    if e.entry_type == side {
        e.amount.units()
    } else {
        0
    }
}

/// Taking an entry out takes its amount from its side.
proof fn lemma_side_units_remove(entries: Seq<CreateEntryParams>, i: int, side: EntryType)
    requires
        0 <= i < entries.len(),
    ensures
        side_units(entries, side) == side_units(entries.remove(i), side) + entry_units(
            entries[i],
            side,
        ),
    decreases entries.len(),
{
    let before = entries.drop_last();
    if i == entries.len() - 1 {
        assert(entries.remove(i) =~= before);
    } else {
        lemma_side_units_remove(before, i, side);
        assert(entries.remove(i).drop_last() =~= before.remove(i));
        assert(entries.remove(i).last() == entries.last());
    }
}

/// What the sides are worth does not depend on the order of the entries.
proof fn lemma_side_units_permuted(
    v: Seq<CreateEntryParams>,
    w: Seq<CreateEntryParams>,
    side: EntryType,
)
    requires
        v.to_multiset() == w.to_multiset(),
    ensures
        v.len() == w.len(),
        side_units(v, side) == side_units(w, side),
    decreases v.len(),
{
    v.to_multiset_ensures();
    w.to_multiset_ensures();
    assert(v.to_multiset().len() == w.to_multiset().len());
    if v.len() > 0 {
        let last = v[v.len() - 1];
        assert(v.contains(last));
        assert(w.to_multiset().count(last) > 0);
        assert(w.contains(last));
        let j = choose|j: int| 0 <= j < w.len() && w[j] == last;
        assert(v.remove(v.len() - 1) =~= v.drop_last());
        lemma_side_units_permuted(v.drop_last(), w.remove(j), side);
        lemma_side_units_remove(w, j, side);
    }
}

/// Entries balance or do not whatever order they come in, where every step of adding up is exact
/// in both orders.
pub proof fn law_order_does_not_matter(v: Seq<CreateEntryParams>, w: Seq<CreateEntryParams>)
    requires
        v.to_multiset() == w.to_multiset(),
        amounts_valid(v),
        amounts_valid(w),
        sums_exact(v, EntryType::Debit),
        sums_exact(v, EntryType::Credit),
        sums_exact(w, EntryType::Debit),
        sums_exact(w, EntryType::Credit),
    ensures
        entries_problem(v) == entries_problem(w),
{
    lemma_side_units_permuted(v, w, EntryType::Debit);
    lemma_side_units_permuted(v, w, EntryType::Credit);
    law_side_sum_exact(v, EntryType::Debit);
    law_side_sum_exact(v, EntryType::Credit);
    law_side_sum_exact(w, EntryType::Debit);
    law_side_sum_exact(w, EntryType::Credit);
}

/// Whether `w` is `v` with every entry on the other side.
pub open spec fn sides_turned(v: Seq<CreateEntryParams>, w: Seq<CreateEntryParams>) -> bool {
    &&& v.len() == w.len()
    &&& forall|i: int|
        0 <= i < v.len() ==> (#[trigger] w[i]).entry_type == v[i].entry_type.other_side()
            && w[i].amount == v[i].amount
}

proof fn lemma_turned_sums(
    v: Seq<CreateEntryParams>,
    w: Seq<CreateEntryParams>,
    side: EntryType,
)
    requires
        sides_turned(v, w),
    ensures
        side_sum(w, side) == side_sum(v, side.other_side()),
    decreases v.len(),
{
    if v.len() > 0 {
        let v0 = v.drop_last();
        let w0 = w.drop_last();
        assert forall|i: int| 0 <= i < v0.len() implies (#[trigger] w0[i]).entry_type
            == v0[i].entry_type.other_side() && w0[i].amount == v0[i].amount by {
            assert(w[i].entry_type == v[i].entry_type.other_side());
        }
        lemma_turned_sums(v0, w0, side);
        assert(w[w.len() - 1].entry_type == v[v.len() - 1].entry_type.other_side());
    }
}

/// Entries balance or do not whichever side is called the debit: putting every entry on the
/// other side leaves it as it is.
pub proof fn law_turning_all_sides_does_not_matter(
    v: Seq<CreateEntryParams>,
    w: Seq<CreateEntryParams>,
)
    requires
        sides_turned(v, w),
    ensures
        entries_problem(v) == entries_problem(w),
        sums_in_range(v) == sums_in_range(w),
{
    lemma_turned_sums(v, w, EntryType::Debit);
    lemma_turned_sums(v, w, EntryType::Credit);
}

} // verus!
