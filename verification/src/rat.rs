//! Exact fractions of integers, the scalar type of the coordinate engine.
//!
//! A coordinate is an exact fraction `num / den` with a positive denominator.
//! The ghost model of a fraction is [`RatV`]; two fractions denote the same
//! rational number exactly when [`rat_eq`] holds of their models.

use vstd::prelude::*;

verus! {

/// Largest magnitude a fraction numerator may have on entry to the engine.
pub const NUM_MAX: i128 = 0x1_0000_0000_0000;

/// Largest denominator a fraction may have on entry to the engine.
pub const DEN_MAX: i128 = 0x1_0000_0000;

/// Largest magnitude either field of a fraction may have for an exact
/// value comparison to be available.
pub const CMP_MAX: i128 = 0x4000_0000_0000_0000;

/// Ghost model of a fraction: the rational number `num / den`.
pub ghost struct RatV {
    pub num: int,
    pub den: int,
}

/// A well-formed fraction has a positive denominator.
pub open spec fn rat_wf(r: RatV) -> bool {
    r.den > 0
}

/// `a` and `b` denote the same rational number (cross-multiplication).
pub open spec fn rat_eq(a: RatV, b: RatV) -> bool {
    a.num * b.den == b.num * a.den
}

/// The rational number `n / 1`.
pub open spec fn rat_of_int(n: int) -> RatV {
    RatV { num: n, den: 1 }
}

/// Product of two rationals.
pub open spec fn rat_mul(a: RatV, b: RatV) -> RatV {
    RatV { num: a.num * b.num, den: a.den * b.den }
}

/// Sum of two rationals.
pub open spec fn rat_add(a: RatV, b: RatV) -> RatV {
    RatV { num: a.num * b.den + b.num * a.den, den: a.den * b.den }
}

/// Difference `a - b` of two rationals.
pub open spec fn rat_sub(a: RatV, b: RatV) -> RatV {
    RatV { num: a.num * b.den - b.num * a.den, den: a.den * b.den }
}

/// Quotient `a / b` of two rationals; meaningful when `b.num != 0`.
pub open spec fn rat_div(a: RatV, b: RatV) -> RatV {
    RatV { num: a.num * b.den, den: a.den * b.num }
}

/// Bound on a product from bounds on its factors.
pub proof fn lemma_mul_abs_bound(a: int, b: int, aa: int, bb: int)
    by (nonlinear_arith)
    requires
        -aa <= a <= aa,
        -bb <= b <= bb,
    ensures
        -(aa * bb) <= a * b <= aa * bb,
{
}

/// A product of positive factors is positive.
pub proof fn lemma_mul_pos(a: int, b: int)
    by (nonlinear_arith)
    requires
        a > 0,
        b > 0,
    ensures
        a * b > 0,
{
}

/// An exact fraction `num / den`; the executable scalar of the engine.
#[derive(Clone, Copy, Debug, PartialEq, Eq, Structural)]
pub struct Frac {
    pub num: i128,
    pub den: i128,
}

impl View for Frac {
    type V = RatV;

    open spec fn view(&self) -> RatV {
        RatV { num: self.num as int, den: self.den as int }
    }
}

impl Frac {
    /// The denominator is positive.
    pub open spec fn wf(self) -> bool {
        self.den > 0
    }

    /// Small enough to enter the transform arithmetic without overflow.
    pub open spec fn bounded(self) -> bool {
        &&& 0 < self.den <= DEN_MAX
        &&& -NUM_MAX <= self.num <= NUM_MAX
    }

    /// Small enough for an exact cross-multiplied comparison.
    pub open spec fn comparable(self) -> bool {
        &&& 0 < self.den <= CMP_MAX
        &&& -CMP_MAX <= self.num <= CMP_MAX
    }

    /// The fraction `num / den`.
    pub fn new(num: i128, den: i128) -> (r: Frac)
        requires
            den > 0,
        ensures
            r.num == num,
            r.den == den,
            r.wf(),
    {
        Frac { num, den }
    }

    /// The fraction `n / 1`.
    pub fn from_int(n: i64) -> (r: Frac)
        ensures
            r@ == rat_of_int(n as int),
            r.wf(),
    {
        Frac { num: n as i128, den: 1 }
    }

    /// Exact value equality of two fractions.
    pub fn same_value(&self, other: &Frac) -> (r: bool)
        requires
            self.comparable(),
            other.comparable(),
        ensures
            r == rat_eq(self@, other@),
    {
        proof {
            lemma_mul_abs_bound(self.num as int, other.den as int, CMP_MAX as int, CMP_MAX as int);
            lemma_mul_abs_bound(other.num as int, self.den as int, CMP_MAX as int, CMP_MAX as int);
        }
        self.num * other.den == other.num * self.den
    }
}

} // verus!
