//! Amounts of money: decimal numbers of 96 bits with up to 28 places after the point.
//!
//! The arithmetic is that of the `rust_decimal` crate. A value is held here as the two integers
//! that make it up, so that contracts can speak of them.
use vstd::arithmetic::power::*;
use vstd::prelude::*;

use crate::text::{nat_text, zero_padded};

verus! {

/// The most places after the point that a [`Decimal`] can have.
pub const MAX_SCALE: u32 = 28;

/// The largest mantissa of a [`Decimal`]: 2^96 - 1.
pub const MAX_MANTISSA: i128 = 79228162514264337593543950335;

/// The number `mantissa / 10^scale`.
#[derive(Clone, Copy, Debug)]
pub struct Decimal {
    mantissa: i128,
    scale: u32,
}

/// An amount outside the range of [`Decimal`], or a version number outside that of `i64`.
#[derive(Clone, Copy, Debug, PartialEq, Eq, Structural)]
pub struct Overflow;

/// What adding two decimals yields where the exact sum is no decimal: the sum rounded to as many
/// places as fit in 96 bits, or nothing where not even the whole part does.
pub uninterp spec fn rounded_sum(a: Decimal, b: Decimal) -> Option<Decimal>;

/// What subtracting two decimals yields where the exact difference is no decimal.
pub uninterp spec fn rounded_difference(a: Decimal, b: Decimal) -> Option<Decimal>;

/// The decimal that a text denotes, where it denotes one.
pub uninterp spec fn decimal_parse(text: Seq<char>) -> Option<Decimal>;

/// `d` counted in units of `10^-scale`.
pub open spec fn at_scale(d: Decimal, scale: nat) -> int {
    d.spec_mantissa() * pow(10, (scale - d.spec_scale()) as nat)
}

/// Mantissa and scale of the exact sum of two decimals. A zero leaves the other operand as it
/// is; otherwise the sum has as many places as the operand with more of them.
pub open spec fn exact_sum(a: Decimal, b: Decimal) -> (int, nat) {
    if a.spec_mantissa() == 0 {
        (b.spec_mantissa(), b.spec_scale())
    } else if b.spec_mantissa() == 0 {
        (a.spec_mantissa(), a.spec_scale())
    } else {
        let scale = if a.spec_scale() < b.spec_scale() {
            b.spec_scale()
        } else {
            a.spec_scale()
        };
        (at_scale(a, scale) + at_scale(b, scale), scale)
    }
}

/// A decimal that is worth `mantissa / 10^scale`, with as many of the places as 96 bits allow:
/// zeros at the end are dropped until the rest fits. There is none where another digit would have
/// to go.
pub open spec fn fitted(mantissa: int, scale: nat) -> Option<Decimal>
    decreases scale,
{
    if -MAX_MANTISSA <= mantissa <= MAX_MANTISSA {
        Some(Decimal::of(mantissa, scale))
    } else if scale > 0 && mantissa % 10 == 0 {
        fitted(mantissa / 10, (scale - 1) as nat)
    } else {
        None
    }
}

/// Whether the exact sum of two decimals is itself a decimal.
pub open spec fn sum_fits(a: Decimal, b: Decimal) -> bool {
    fitted(exact_sum(a, b).0, exact_sum(a, b).1) is Some
}

/// The sum of two decimals, or nothing where it is out of range.
pub open spec fn decimal_sum(a: Decimal, b: Decimal) -> Option<Decimal> {
    if sum_fits(a, b) {
        fitted(exact_sum(a, b).0, exact_sum(a, b).1)
    } else {
        rounded_sum(a, b)
    }
}

/// The difference of two decimals, or nothing where it is out of range.
pub open spec fn decimal_difference(a: Decimal, b: Decimal) -> Option<Decimal> {
    if sum_fits(a, b.negated()) {
        fitted(exact_sum(a, b.negated()).0, exact_sum(a, b.negated()).1)
    } else {
        rounded_difference(a, b)
    }
}

/// The plain notation of `mantissa / 10^scale`, with exactly `scale` places after the point.
pub open spec fn decimal_text(mantissa: int, scale: nat) -> Seq<char> {
    let magnitude = if mantissa < 0 {
        -mantissa
    } else {
        mantissa
    };
    let sign: Seq<char> = if mantissa < 0 {
        seq!['-']
    } else {
        Seq::empty()
    };
    let whole = nat_text((magnitude / pow(10, scale)) as nat);
    let fraction: Seq<char> = if scale == 0 {
        Seq::empty()
    } else {
        seq!['.'] + zero_padded(nat_text((magnitude % pow(10, scale)) as nat), scale)
    };
    sign + whole + fraction
}

impl Decimal {
    /// What every decimal keeps to: a mantissa of at most 96 bits and a scale of at most 28.
    #[verifier::type_invariant]
    pub closed spec fn valid(self) -> bool {
        &&& -MAX_MANTISSA <= self.mantissa <= MAX_MANTISSA
        &&& self.scale <= MAX_SCALE
    }

    pub closed spec fn spec_mantissa(self) -> int {
        self.mantissa as int
    }

    pub closed spec fn spec_scale(self) -> nat {
        self.scale as nat
    }

    /// The decimal with this mantissa and this scale.
    pub closed spec fn of(mantissa: int, scale: nat) -> Decimal {
        Decimal { mantissa: mantissa as i128, scale: scale as u32 }
    }

    /// The value in units of `10^-28`, which every decimal is a multiple of.
    pub open spec fn units(self) -> int {
        at_scale(self, 28)
    }

    /// The decimal of opposite sign.
    pub open spec fn negated(self) -> Decimal {
        Decimal::of(-self.spec_mantissa(), self.spec_scale())
    }

    /// The decimal `mantissa / 10^scale`, if there is one.
    pub fn new(mantissa: i128, scale: u32) -> (r: Option<Decimal>)
        ensures
            r is Some <==> -MAX_MANTISSA <= mantissa <= MAX_MANTISSA && scale <= MAX_SCALE,
            r matches Some(d) ==> d == Decimal::of(mantissa as int, scale as nat),
            r matches Some(d) ==> d.spec_mantissa() == mantissa && d.spec_scale() == scale,
    {
        if -MAX_MANTISSA <= mantissa && mantissa <= MAX_MANTISSA && scale <= MAX_SCALE {
            Some(Decimal { mantissa, scale })
        } else {
            None
        }
    }

    /// Zero, with no places after the point.
    pub fn zero() -> (r: Decimal)
        ensures
            r == Decimal::of(0, 0),
            r.spec_mantissa() == 0,
            r.spec_scale() == 0,
            r.units() == 0,
    {
        Decimal { mantissa: 0, scale: 0 }
    }

    pub fn mantissa(&self) -> (r: i128)
        ensures
            r == self.spec_mantissa(),
    {
        self.mantissa
    }

    pub fn scale(&self) -> (r: u32)
        ensures
            r == self.spec_scale(),
    {
        self.scale
    }

    /// The decimal of opposite sign.
    pub fn neg(self) -> (r: Decimal)
        ensures
            r == self.negated(),
    {
        proof {
            use_type_invariant(&self);
        }
        Decimal { mantissa: -self.mantissa, scale: self.scale }
    }

    /// `rust_decimal::Decimal::checked_add`. Its result is the exact sum at the larger of the two
    /// scales where that fits in 96 bits, and the other operand where one is zero. Otherwise as
    /// few places are dropped as make it fit: the result is still exact where those are zeros.
    /// Elsewhere it is what the crate rounds the sum to, or nothing on overflow.
    #[verifier::external_body]
    fn rust_decimal_add(self, other: Decimal) -> (r: Option<Decimal>)
        ensures
            sum_fits(self, other) ==> r == fitted(
                exact_sum(self, other).0,
                exact_sum(self, other).1,
            ),
            !sum_fits(self, other) ==> r == rounded_sum(self, other),
    {
        let a = rust_decimal::Decimal::from_i128_with_scale(self.mantissa, self.scale);
        let b = rust_decimal::Decimal::from_i128_with_scale(other.mantissa, other.scale);
        a.checked_add(b).map(|d| Decimal { mantissa: d.mantissa(), scale: d.scale() })
    }

    /// `rust_decimal::Decimal::checked_sub`, which treats the second operand as
    /// `rust_decimal::Decimal::checked_add` does with its sign turned.
    #[verifier::external_body]
    fn rust_decimal_sub(self, other: Decimal) -> (r: Option<Decimal>)
        ensures
            sum_fits(self, other.negated()) ==> r == fitted(
                exact_sum(self, other.negated()).0,
                exact_sum(self, other.negated()).1,
            ),
            !sum_fits(self, other.negated()) ==> r == rounded_difference(self, other),
    {
        let a = rust_decimal::Decimal::from_i128_with_scale(self.mantissa, self.scale);
        let b = rust_decimal::Decimal::from_i128_with_scale(other.mantissa, other.scale);
        a.checked_sub(b).map(|d| Decimal { mantissa: d.mantissa(), scale: d.scale() })
    }

    /// The `<` of `rust_decimal::Decimal`, which compares the numbers and not their notation.
    #[verifier::external_body]
    pub(crate) fn less_than(self, other: Decimal) -> (r: bool)
        ensures
            r == (self.units() < other.units()),
    {
        let a = rust_decimal::Decimal::from_i128_with_scale(self.mantissa, self.scale);
        let b = rust_decimal::Decimal::from_i128_with_scale(other.mantissa, other.scale);
        a < b
    }

    /// The `==` of `rust_decimal::Decimal`, under which 1.0 and 1.00 are equal.
    #[verifier::external_body]
    pub(crate) fn equals(self, other: Decimal) -> (r: bool)
        ensures
            r == (self.units() == other.units()),
    {
        let a = rust_decimal::Decimal::from_i128_with_scale(self.mantissa, self.scale);
        let b = rust_decimal::Decimal::from_i128_with_scale(other.mantissa, other.scale);
        a == b
    }

    /// The `Display` of `rust_decimal::Decimal`: plain notation with all places of the scale.
    /// Parsing the text gives the same mantissa and scale back.
    #[verifier::external_body]
    fn display(self) -> (r: String)
        ensures
            r@ == decimal_text(self.spec_mantissa(), self.spec_scale()),
            decimal_parse(r@) == Some(self),
    {
        rust_decimal::Decimal::from_i128_with_scale(self.mantissa, self.scale).to_string()
    }

    /// The `FromStr` of `rust_decimal::Decimal`. The texts that it takes, and how it rounds
    /// those with too many places, are left to the name.
    #[verifier::external_body]
    fn from_text(text: &str) -> (r: Option<Decimal>)
        ensures
            r == decimal_parse(text@),
    {
        text.parse::<rust_decimal::Decimal>().ok().map(
            |d| Decimal { mantissa: d.mantissa(), scale: d.scale() },
        )
    }

    /// The sum, or nothing where it is out of range.
    pub fn checked_add(self, other: Decimal) -> (r: Option<Decimal>)
        ensures
            r == decimal_sum(self, other),
    {
        self.rust_decimal_add(other)
    }

    /// The difference, or nothing where it is out of range.
    pub fn checked_sub(self, other: Decimal) -> (r: Option<Decimal>)
        ensures
            r == decimal_difference(self, other),
    {
        self.rust_decimal_sub(other)
    }

    /// The sum, which must be in range.
    pub fn add(self, other: Decimal) -> (r: Decimal)
        requires
            decimal_sum(self, other) is Some,
        ensures
            decimal_sum(self, other) == Some(r),
    {
        self.checked_add(other).unwrap()
    }

    /// The difference, which must be in range.
    pub fn sub(self, other: Decimal) -> (r: Decimal)
        requires
            decimal_difference(self, other) is Some,
        ensures
            decimal_difference(self, other) == Some(r),
    {
        self.checked_sub(other).unwrap()
    }

    /// Plain notation with all places of the scale. Parsing it gives the same decimal back.
    pub fn to_text(self) -> (r: String)
        ensures
            r@ == decimal_text(self.spec_mantissa(), self.spec_scale()),
            decimal_parse(r@) == Some(self),
    {
        self.display()
    }

    /// The decimal that `text` denotes, where it denotes one.
    pub fn parse(text: &str) -> (r: Option<Decimal>)
        ensures
            r == decimal_parse(text@),
    {
        Decimal::from_text(text)
    }
}

/// Mantissa and scale of a decimal that is made from them.
pub proof fn lemma_of(mantissa: int, scale: nat)
    requires
        -MAX_MANTISSA <= mantissa <= MAX_MANTISSA,
        scale <= MAX_SCALE,
    ensures
        Decimal::of(mantissa, scale).valid(),
        Decimal::of(mantissa, scale).spec_mantissa() == mantissa,
        Decimal::of(mantissa, scale).spec_scale() == scale,
{
}

/// The range that a valid decimal's mantissa and scale are in.
pub proof fn lemma_valid(d: Decimal)
    requires
        d.valid(),
    ensures
        -MAX_MANTISSA <= d.spec_mantissa() <= MAX_MANTISSA,
        d.spec_scale() <= MAX_SCALE,
        Decimal::of(d.spec_mantissa(), d.spec_scale()) == d,
        d.negated().valid(),
        d.negated().spec_mantissa() == -d.spec_mantissa(),
        d.negated().spec_scale() == d.spec_scale(),
        d.negated().negated() == d,
        d.negated().units() == -d.units(),
{
    let p = pow(10, (28 - d.spec_scale()) as nat);
    assert((-d.spec_mantissa()) * p == -(d.spec_mantissa() * p)) by (nonlinear_arith);
}

/// Counting in finer units multiplies the count.
proof fn lemma_at_scale(d: Decimal, scale: nat)
    requires
        d.valid(),
        d.spec_scale() <= scale <= 28,
    ensures
        d.units() == at_scale(d, scale) * pow(10, (28 - scale) as nat),
{
    let m = d.spec_mantissa();
    let p = pow(10, (scale - d.spec_scale()) as nat);
    let q = pow(10, (28 - scale) as nat);
    lemma_pow_adds(10, (scale - d.spec_scale()) as nat, (28 - scale) as nat);
    assert(m * (p * q) == (m * p) * q) by (nonlinear_arith);
}

/// Dropping zeros at the end keeps the value.
proof fn lemma_fitted(mantissa: int, scale: nat)
    requires
        scale <= 28,
        fitted(mantissa, scale) is Some,
    ensures
        fitted(mantissa, scale).unwrap().valid(),
        fitted(mantissa, scale).unwrap().units() == mantissa * pow(10, (28 - scale) as nat),
    decreases scale,
{
    if -MAX_MANTISSA <= mantissa <= MAX_MANTISSA {
        lemma_of(mantissa, scale);
    } else {
        lemma_fitted(mantissa / 10, (scale - 1) as nat);
        let p = pow(10, (28 - scale) as nat);
        assert(pow(10, (29 - scale) as nat) == 10 * p) by {
            reveal(pow);
        }
        let q = mantissa / 10;
        assert(mantissa == 10 * q);
        assert(q * (10 * p) == (10 * q) * p) by (nonlinear_arith);
    }
}

/// What is worth a decimal's value fits, where it is that decimal's mantissa with zeros at the
/// end.
proof fn lemma_zeros_fit(mantissa: int, zeros: nat, scale: nat)
    requires
        -MAX_MANTISSA <= mantissa <= MAX_MANTISSA,
        zeros <= scale,
    ensures
        fitted(mantissa * pow(10, zeros), scale) is Some,
    decreases scale,
{
    let m = mantissa * pow(10, zeros);
    if zeros == 0 {
        assert(pow(10, 0) == 1) by {
            reveal(pow);
        }
        assert(m == mantissa);
    } else if !(-MAX_MANTISSA <= m <= MAX_MANTISSA) {
        let p = pow(10, (zeros - 1) as nat);
        assert(pow(10, zeros) == 10 * p) by {
            reveal(pow);
        }
        let q = mantissa * p;
        assert(mantissa * (10 * p) == 10 * (mantissa * p)) by (nonlinear_arith);
        assert(m == 10 * q);
        assert(m % 10 == 0 && m / 10 == q);
        lemma_zeros_fit(mantissa, (zeros - 1) as nat, (scale - 1) as nat);
    }
}

/// The exact sum of two decimals is worth the sum of their values.
proof fn lemma_exact_sum(a: Decimal, b: Decimal)
    requires
        a.valid(),
        b.valid(),
    ensures
        exact_sum(a, b).1 <= 28,
        exact_sum(a, b).0 * pow(10, (28 - exact_sum(a, b).1) as nat) == a.units() + b.units(),
{
    let s = exact_sum(a, b).1;
    if a.spec_mantissa() == 0 {
        assert(a.units() == 0) by (nonlinear_arith)
            requires
                a.spec_mantissa() == 0,
                a.units() == a.spec_mantissa() * pow(10, (28 - a.spec_scale()) as nat),
        ;
    } else if b.spec_mantissa() == 0 {
        assert(b.units() == 0) by (nonlinear_arith)
            requires
                b.spec_mantissa() == 0,
                b.units() == b.spec_mantissa() * pow(10, (28 - b.spec_scale()) as nat),
        ;
    } else {
        let q = pow(10, (28 - s) as nat);
        lemma_at_scale(a, s);
        lemma_at_scale(b, s);
        let x = at_scale(a, s);
        let y = at_scale(b, s);
        assert((x + y) * q == x * q + y * q) by (nonlinear_arith);
    }
}

/// A sum that fits is exact: its value is the sum of the values.
pub proof fn lemma_sum_exact(a: Decimal, b: Decimal)
    requires
        a.valid(),
        b.valid(),
        sum_fits(a, b),
    ensures
        decimal_sum(a, b) is Some,
        decimal_sum(a, b).unwrap().valid(),
        decimal_sum(a, b).unwrap().units() == a.units() + b.units(),
{
    lemma_exact_sum(a, b);
    lemma_fitted(exact_sum(a, b).0, exact_sum(a, b).1);
}

/// Whether some decimal has this value, in units of `10^-28`.
pub open spec fn representable(units: int) -> bool {
    exists|d: Decimal| d.valid() && #[trigger] d.units() == units
}

/// Adding is exact wherever it can be: where some decimal is worth the sum of the values, the
/// sum fits, and it is worth that.
pub proof fn law_representable_sums_are_exact(a: Decimal, b: Decimal)
    requires
        a.valid(),
        b.valid(),
    ensures
        sum_fits(a, b) <==> representable(a.units() + b.units()),
        representable(a.units() + b.units()) ==> (decimal_sum(a, b) matches Some(sum)
            && sum.valid() && sum.units() == a.units() + b.units()),
{
    let (m, s) = exact_sum(a, b);
    lemma_exact_sum(a, b);
    if sum_fits(a, b) {
        lemma_sum_exact(a, b);
    }
    if representable(a.units() + b.units()) {
        let d = choose|d: Decimal| d.valid() && #[trigger] d.units() == a.units() + b.units();
        let n = d.spec_mantissa();
        let t = d.spec_scale();
        let p = pow(10, (28 - s) as nat);
        let q = pow(10, (28 - t) as nat);
        assert(m * p == n * q);
        if t >= s {
            let z = pow(10, (t - s) as nat);
            lemma_pow_adds(10, (t - s) as nat, (28 - t) as nat);
            lemma_pow_positive(10, (28 - t) as nat);
            lemma_pow_positive(10, (t - s) as nat);
            assert(p == z * q);
            assert(m * z == n) by (nonlinear_arith)
                requires
                    m * (z * q) == n * q,
                    q > 0,
            ;
            assert(-MAX_MANTISSA <= m <= MAX_MANTISSA) by (nonlinear_arith)
                requires
                    m * z == n,
                    z > 0,
                    -MAX_MANTISSA <= n <= MAX_MANTISSA,
            ;
        } else {
            let z = pow(10, (s - t) as nat);
            lemma_pow_adds(10, (s - t) as nat, (28 - s) as nat);
            lemma_pow_positive(10, (28 - s) as nat);
            assert(q == z * p);
            assert(m == n * z) by (nonlinear_arith)
                requires
                    m * p == n * (z * p),
                    p > 0,
            ;
            lemma_zeros_fit(n, (s - t) as nat, s);
        }
        lemma_sum_exact(a, b);
    }
}

/// Subtracting is exact wherever it can be.
pub proof fn law_representable_differences_are_exact(a: Decimal, b: Decimal)
    requires
        a.valid(),
        b.valid(),
    ensures
        sum_fits(a, b.negated()) <==> representable(a.units() - b.units()),
        representable(a.units() - b.units()) ==> (decimal_difference(a, b) matches Some(difference)
            && difference.valid() && difference.units() == a.units() - b.units()),
{
    lemma_valid(b);
    law_representable_sums_are_exact(a, b.negated());
    if sum_fits(a, b.negated()) {
        lemma_difference_exact(a, b);
    }
}

/// A difference that fits is exact: its value is the difference of the values.
pub proof fn lemma_difference_exact(a: Decimal, b: Decimal)
    requires
        a.valid(),
        b.valid(),
        sum_fits(a, b.negated()),
    ensures
        decimal_difference(a, b) is Some,
        decimal_difference(a, b).unwrap().valid(),
        decimal_difference(a, b).unwrap().units() == a.units() - b.units(),
{
    lemma_valid(b);
    lemma_sum_exact(a, b.negated());
}

} // verus!
