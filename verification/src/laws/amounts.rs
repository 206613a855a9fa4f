//! Amounts of money.
use vstd::prelude::*;

use crate::decimal::{
    law_representable_differences_are_exact, law_representable_sums_are_exact, lemma_valid,
    representable, rounded_difference, rounded_sum, Decimal, MAX_MANTISSA, MAX_SCALE,
};

verus! {

/// Adding and subtracting are exact wherever some decimal is worth the result, and are rounded as
/// `rust_decimal` does it elsewhere. Both ways of doing so agree.
pub proof fn law_sums_and_differences(
    a: Decimal,
    b: Decimal,
    sum: Option<Decimal>,
    difference: Option<Decimal>,
)
    requires
        a.valid(),
        b.valid(),
        call_ensures(Decimal::checked_add, (a, b), sum),
        call_ensures(Decimal::checked_sub, (a, b), difference),
    ensures
        representable(a.units() + b.units()) ==> (sum matches Some(s) && s.valid() && s.units()
            == a.units() + b.units()),
        representable(a.units() - b.units()) ==> (difference matches Some(d) && d.valid()
            && d.units() == a.units() - b.units()),
        !representable(a.units() + b.units()) ==> sum == rounded_sum(a, b),
        !representable(a.units() - b.units()) ==> difference == rounded_difference(a, b),
        sum matches Some(s) ==> forall|r: Decimal|
            #![trigger call_ensures(Decimal::add, (a, b), r)]
            call_ensures(Decimal::add, (a, b), r) ==> r == s,
        difference matches Some(d) ==> forall|r: Decimal|
            #![trigger call_ensures(Decimal::sub, (a, b), r)]
            call_ensures(Decimal::sub, (a, b), r) ==> r == d,
{
    law_representable_sums_are_exact(a, b);
    law_representable_differences_are_exact(a, b);
}

/// What was added can be taken away again: the amount is worth what it was before.
pub proof fn law_adding_is_undone_by_subtracting(
    a: Decimal,
    b: Decimal,
    sum: Decimal,
    back: Option<Decimal>,
)
    requires
        a.valid(),
        b.valid(),
        representable(a.units() + b.units()),
        call_ensures(Decimal::checked_add, (a, b), Some(sum)),
        call_ensures(Decimal::checked_sub, (sum, b), back),
    ensures
        back matches Some(r) && r.units() == a.units(),
{
    law_representable_sums_are_exact(a, b);
    assert(a.valid() && a.units() == sum.units() - b.units());
    assert(representable(sum.units() - b.units()));
    law_representable_differences_are_exact(sum, b);
}

/// The decimal of opposite sign is worth as much with the other sign, and turning the sign twice
/// leads back.
pub proof fn law_opposite_signs(d: Decimal, opposite: Decimal, back: Decimal)
    requires
        d.valid(),
        call_ensures(Decimal::neg, (d,), opposite),
        call_ensures(Decimal::neg, (opposite,), back),
    ensures
        opposite.units() == -d.units(),
        opposite.spec_scale() == d.spec_scale(),
        back == d,
{
    lemma_valid(d);
}

/// A decimal is made from every mantissa of at most 96 bits and every scale of at most 28, and
/// gives them back. Zero is worth nothing.
pub proof fn law_decimals_are_made_from_their_parts(
    mantissa: i128,
    scale: u32,
    r: Option<Decimal>,
    m: i128,
    s: u32,
    zero: Decimal,
)
    requires
        call_ensures(Decimal::new, (mantissa, scale), r),
        r matches Some(d) ==> call_ensures(Decimal::mantissa, (&d,), m),
        r matches Some(d) ==> call_ensures(Decimal::scale, (&d,), s),
        call_ensures(Decimal::zero, (), zero),
    ensures
        r is Some <==> -MAX_MANTISSA <= mantissa <= MAX_MANTISSA && scale <= MAX_SCALE,
        r is Some ==> m == mantissa && s == scale,
        MAX_SCALE == 28,
        MAX_MANTISSA + 1 == 0x1_0000_0000_0000_0000_0000_0000,
        zero.units() == 0,
{
}

/// The text of a decimal is read as that decimal, with all its places. No two decimals have the
/// same text.
pub proof fn law_decimal_texts_are_read_back(
    a: Decimal,
    a_text: String,
    b: Decimal,
    b_text: String,
    shown: &str,
    read: Option<Decimal>,
)
    requires
        call_ensures(Decimal::to_text, (a,), a_text),
        call_ensures(Decimal::to_text, (b,), b_text),
        shown@ == a_text@,
        call_ensures(Decimal::parse, (shown,), read),
    ensures
        read == Some(a),
        a_text@ == b_text@ ==> a == b,
{
}

} // verus!
