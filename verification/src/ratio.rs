//! Exact rational values.

use vstd::prelude::*;
use std::ops::{Add, Div, Sub};

verus! {

/// Whether an integer can be held in an `i64`.
pub open spec fn fits_i64(value: int) -> bool {
    i64::MIN <= value <= i64::MAX
}

/// A rational number, held exactly as a numerator over a positive
/// denominator. The fraction is kept as it was computed, not in lowest
/// terms, so two values are compared with [`Ratio::same_value`].
#[derive(Clone, Copy, Debug)]
pub struct Ratio {
    num: i64,
    den: i64,
}

proof fn lemma_product_bound(x: int, y: int)
    by (nonlinear_arith)
    requires
        -0x8000_0000_0000_0000 <= x < 0x8000_0000_0000_0000,
        -0x8000_0000_0000_0000 <= y < 0x8000_0000_0000_0000,
    ensures
        -0x4000_0000_0000_0000_0000_0000_0000_0000 < x * y <= 0x4000_0000_0000_0000_0000_0000_0000_0000,
        y > 0 ==> x * y < 0x4000_0000_0000_0000_0000_0000_0000_0000,
        x > 0 && y > 0 ==> x * y > 0,
        x > 0 && y < 0 ==> x * y < 0,
{
}

impl Ratio {
    #[verifier::type_invariant]
    spec fn positive_denominator(self) -> bool {
        self.den > 0
    }

    /// The numerator.
    pub closed spec fn spec_numerator(&self) -> i64 {
        self.num
    }

    /// The denominator.
    pub closed spec fn spec_denominator(&self) -> i64 {
        self.den
    }

    /// The fraction with the given parts, each cut down to an `i64`.
    pub closed spec fn spec_new(num: int, den: int) -> Ratio {
        Ratio { num: num as i64, den: den as i64 }
    }

    /// Whether the denominator is positive. Every value that a program
    /// holds is well formed.
    pub open spec fn wf(self) -> bool {
        self.spec_denominator() > 0
    }

    /// Whether two fractions stand for the same number.
    pub open spec fn same_value(self, other: Ratio) -> bool {
        self.spec_numerator() * other.spec_denominator() == other.spec_numerator()
            * self.spec_denominator()
    }

    /// The numerator of the sum of two fractions, before any reduction.
    pub open spec fn sum_numerator(self, rhs: Ratio) -> int {
        self.spec_numerator() * rhs.spec_denominator() + rhs.spec_numerator()
            * self.spec_denominator()
    }

    /// The numerator of the difference of two fractions, before any
    /// reduction.
    pub open spec fn difference_numerator(self, rhs: Ratio) -> int {
        self.spec_numerator() * rhs.spec_denominator() - rhs.spec_numerator()
            * self.spec_denominator()
    }

    /// The denominator that the sum and the difference of two fractions
    /// are computed over.
    pub open spec fn common_denominator(self, rhs: Ratio) -> int {
        self.spec_denominator() * rhs.spec_denominator()
    }

    /// The numerator of the quotient of two fractions, with the sign of the
    /// divisor moved into it.
    pub open spec fn quotient_numerator(self, rhs: Ratio) -> int {
        if rhs.spec_numerator() > 0 {
            self.spec_numerator() * rhs.spec_denominator()
        } else {
            -(self.spec_numerator() * rhs.spec_denominator())
        }
    }

    /// The denominator of the quotient of two fractions, made positive.
    pub open spec fn quotient_denominator(self, rhs: Ratio) -> int {
        if rhs.spec_numerator() > 0 {
            self.spec_denominator() * rhs.spec_numerator()
        } else {
            -(self.spec_denominator() * rhs.spec_numerator())
        }
    }

    /// Whether the sum of two fractions can be held.
    pub open spec fn can_add(self, rhs: Ratio) -> bool {
        fits_i64(self.sum_numerator(rhs)) && fits_i64(self.common_denominator(rhs))
    }

    /// Whether the difference of two fractions can be held.
    pub open spec fn can_sub(self, rhs: Ratio) -> bool {
        fits_i64(self.difference_numerator(rhs)) && fits_i64(self.common_denominator(rhs))
    }

    /// Whether the quotient of two fractions exists and can be held.
    pub open spec fn can_div(self, rhs: Ratio) -> bool {
        &&& rhs.spec_numerator() != 0
        &&& fits_i64(self.quotient_numerator(rhs))
        &&& fits_i64(self.quotient_denominator(rhs))
    }

    /// The sum of two fractions.
    pub open spec fn spec_sum(self, rhs: Ratio) -> Ratio {
        Self::spec_new(self.sum_numerator(rhs), self.common_denominator(rhs))
    }

    /// The difference of two fractions.
    pub open spec fn spec_difference(self, rhs: Ratio) -> Ratio {
        Self::spec_new(self.difference_numerator(rhs), self.common_denominator(rhs))
    }

    /// The quotient of two fractions.
    pub open spec fn spec_quotient(self, rhs: Ratio) -> Ratio {
        Self::spec_new(self.quotient_numerator(rhs), self.quotient_denominator(rhs))
    }

    /// The fraction `num / den`, where the denominator is positive.
    pub fn new(num: i64, den: i64) -> (ratio: Option<Ratio>)
        ensures
            den > 0 <==> ratio is Some,
            den > 0 ==> ratio == Some(Self::spec_new(num as int, den as int)),
            ratio matches Some(r) ==> r.spec_numerator() == num && r.spec_denominator() == den,
    {
        if den > 0 {
            Some(Ratio { num, den })
        } else {
            None
        }
    }

    /// The whole number `value`.
    pub fn from_integer(value: i64) -> (ratio: Ratio)
        ensures
            ratio == Self::spec_new(value as int, 1),
            ratio.spec_numerator() == value,
            ratio.spec_denominator() == 1,
    {
        Ratio { num: value, den: 1 }
    }

    /// The fraction `num / den` of two wide integers that fit.
    pub(crate) fn from_wide(num: i128, den: i128) -> (ratio: Ratio)
        requires
            fits_i64(num as int),
            fits_i64(den as int),
            den > 0,
        ensures
            ratio == Self::spec_new(num as int, den as int),
            ratio.spec_numerator() == num,
            ratio.spec_denominator() == den,
    {
        Ratio { num: num as i64, den: den as i64 }
    }

    /// The numerator.
    #[verifier::when_used_as_spec(spec_numerator)]
    pub fn numerator(&self) -> (num: i64)
        ensures
            num == self.spec_numerator(),
    {
        self.num
    }

    /// The denominator, which is positive.
    #[verifier::when_used_as_spec(spec_denominator)]
    pub fn denominator(&self) -> (den: i64)
        ensures
            den == self.spec_denominator(),
            den > 0,
    {
        proof {
            use_type_invariant(self);
        }
        self.den
    }

    /// Whether this fraction and `other` stand for the same number.
    pub fn is_same_value(&self, other: &Ratio) -> (same: bool)
        ensures
            same == self.same_value(*other),
    {
        proof {
            use_type_invariant(self);
            use_type_invariant(other);
            lemma_product_bound(self.num as int, other.den as int);
            lemma_product_bound(other.num as int, self.den as int);
        }
        (self.num as i128) * (other.den as i128) == (other.num as i128) * (self.den as i128)
    }

    /// The parts of a fraction made from parts that fit are those parts.
    pub proof fn lemma_parts(num: int, den: int)
        requires
            fits_i64(num),
            fits_i64(den),
        ensures
            Self::spec_new(num, den).spec_numerator() == num,
            Self::spec_new(num, den).spec_denominator() == den,
    {
    }

    /// Taking away what was added gives the first value back: `(a + b) - b`
    /// stands for the same number as `a`, wherever the sum and the
    /// difference can be held.
    pub proof fn lemma_add_then_sub(a: Ratio, b: Ratio)
        requires
            a.wf(),
            b.wf(),
            a.can_add(b),
            a.spec_sum(b).can_sub(b),
        ensures
            a.spec_sum(b).spec_difference(b).same_value(a),
            a.spec_sum(b).wf(),
            a.spec_sum(b).spec_difference(b).wf(),
    {
        let sum = a.spec_sum(b);
        let back = sum.spec_difference(b);
        Self::lemma_parts(a.sum_numerator(b), a.common_denominator(b));
        Self::lemma_parts(sum.difference_numerator(b), sum.common_denominator(b));
        let an = a.spec_numerator() as int;
        let ad = a.spec_denominator() as int;
        let bn = b.spec_numerator() as int;
        let bd = b.spec_denominator() as int;
        assert(ad * bd > 0 && ad * bd * bd > 0 && ((an * bd + bn * ad) * bd - bn * (ad * bd)) * ad
            == an * ((ad * bd) * bd)) by (nonlinear_arith)
            requires
                ad > 0,
                bd > 0,
        ;
    }

    /// A quotient times its divisor stands for the same number as the
    /// dividend, wherever the quotient exists and can be held.
    pub proof fn lemma_quotient(a: Ratio, b: Ratio)
        requires
            a.wf(),
            b.wf(),
            a.can_div(b),
        ensures
            a.spec_quotient(b).wf(),
            a.spec_quotient(b).spec_numerator() * b.spec_numerator() * a.spec_denominator()
                == a.spec_numerator() * (a.spec_quotient(b).spec_denominator()
                * b.spec_denominator()),
    {
        Self::lemma_parts(a.quotient_numerator(b), a.quotient_denominator(b));
        let an = a.spec_numerator() as int;
        let ad = a.spec_denominator() as int;
        let bn = b.spec_numerator() as int;
        let bd = b.spec_denominator() as int;
        assert((bn > 0 ==> ad * bn > 0) && (bn < 0 ==> -(ad * bn) > 0) && (an * bd) * bn * ad == an
            * ((ad * bn) * bd) && (-(an * bd)) * bn * ad == an * ((-(ad * bn)) * bd))
            by (nonlinear_arith)
            requires
                ad > 0,
                bd > 0,
        ;
    }

    /// Two fractions with the same numerator and the same denominator are
    /// the same fraction.
    pub proof fn lemma_equal(a: Ratio, b: Ratio)
        requires
            a.spec_numerator() == b.spec_numerator(),
            a.spec_denominator() == b.spec_denominator(),
        ensures
            a == b,
    {
    }
}

impl Add for Ratio {
    type Output = Ratio;

    /// The sum, over the product of the two denominators.
    fn add(self, rhs: Ratio) -> (sum: Ratio)
        ensures
            sum.spec_numerator() == self.sum_numerator(rhs),
            sum.spec_denominator() == self.common_denominator(rhs),
    {
        let an: i128 = self.numerator() as i128;
        let ad: i128 = self.denominator() as i128;
        let bn: i128 = rhs.numerator() as i128;
        let bd: i128 = rhs.denominator() as i128;
        proof {
            lemma_product_bound(an as int, bd as int);
            lemma_product_bound(bn as int, ad as int);
            lemma_product_bound(ad as int, bd as int);
        }
        Ratio::from_wide(an * bd + bn * ad, ad * bd)
    }
}

impl vstd::std_specs::ops::AddSpecImpl for Ratio {
    open spec fn obeys_add_spec() -> bool {
        true
    }

    open spec fn add_req(self, rhs: Ratio) -> bool {
        self.can_add(rhs)
    }

    open spec fn add_spec(self, rhs: Ratio) -> Ratio {
        self.spec_sum(rhs)
    }
}

impl Sub for Ratio {
    type Output = Ratio;

    /// The difference, over the product of the two denominators.
    fn sub(self, rhs: Ratio) -> (difference: Ratio)
        ensures
            difference.spec_numerator() == self.difference_numerator(rhs),
            difference.spec_denominator() == self.common_denominator(rhs),
    {
        let an: i128 = self.numerator() as i128;
        let ad: i128 = self.denominator() as i128;
        let bn: i128 = rhs.numerator() as i128;
        let bd: i128 = rhs.denominator() as i128;
        proof {
            lemma_product_bound(an as int, bd as int);
            lemma_product_bound(bn as int, ad as int);
            lemma_product_bound(ad as int, bd as int);
        }
        Ratio::from_wide(an * bd - bn * ad, ad * bd)
    }
}

impl vstd::std_specs::ops::SubSpecImpl for Ratio {
    open spec fn obeys_sub_spec() -> bool {
        true
    }

    open spec fn sub_req(self, rhs: Ratio) -> bool {
        self.can_sub(rhs)
    }

    open spec fn sub_spec(self, rhs: Ratio) -> Ratio {
        self.spec_difference(rhs)
    }
}

impl Div for Ratio {
    type Output = Ratio;

    /// The quotient, with a positive denominator.
    fn div(self, rhs: Ratio) -> (quotient: Ratio)
        ensures
            quotient.spec_numerator() == self.quotient_numerator(rhs),
            quotient.spec_denominator() == self.quotient_denominator(rhs),
    {
        let an: i128 = self.numerator() as i128;
        let ad: i128 = self.denominator() as i128;
        let bn: i128 = rhs.numerator() as i128;
        let bd: i128 = rhs.denominator() as i128;
        proof {
            lemma_product_bound(an as int, bd as int);
            lemma_product_bound(ad as int, bn as int);
        }
        if bn > 0 {
            Ratio::from_wide(an * bd, ad * bn)
        } else {
            Ratio::from_wide(-(an * bd), -(ad * bn))
        }
    }
}

impl vstd::std_specs::ops::DivSpecImpl for Ratio {
    open spec fn obeys_div_spec() -> bool {
        true
    }

    open spec fn div_req(self, rhs: Ratio) -> bool {
        self.can_div(rhs)
    }

    open spec fn div_spec(self, rhs: Ratio) -> Ratio {
        self.spec_quotient(rhs)
    }
}

} // verus!
