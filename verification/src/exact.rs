//! Exact fractions: a sign, a numerator and a denominator.

use vstd::prelude::*;
use crate::wide::U256;
use crate::wide::lemma_view_injective;

verus! {

/// The real number `n / d`.
pub open spec fn ratio(n: int, d: int) -> real {
    n as real / d as real
}

/// A rational number held exactly. No operation on it rounds.
#[derive(Clone, Copy, Debug, PartialEq, Eq, Structural)]
pub struct Exact {
    /// Whether the number is below zero.
    pub negative: bool,
    /// The magnitude's numerator.
    pub numerator: U256,
    /// The denominator, which is not zero.
    pub denominator: U256,
}

impl View for Exact {
    type V = real;

    /// The number that the fraction denotes.
    open spec fn view(&self) -> real {
        ratio(self.numer(), self.denom())
    }
}

impl Exact {
    /// The denominator is not zero, and zero carries no sign.
    pub open spec fn wf(&self) -> bool {
        &&& self.denominator@ > 0
        &&& self.negative ==> self.numerator@ > 0
    }

    /// The numerator with its sign.
    pub open spec fn numer(&self) -> int {
        if self.negative {
            -(self.numerator@ as int)
        } else {
            self.numerator@ as int
        }
    }

    /// The denominator.
    pub open spec fn denom(&self) -> int {
        self.denominator@ as int
    }

    /// `self` is the well-formed fraction with signed numerator `n` and
    /// denominator `d`. There is one such value at most.
    pub open spec fn is_fraction(&self, n: int, d: int) -> bool {
        &&& self.wf()
        &&& self.numer() == n
        &&& self.denom() == d
    }

    /// The fraction with the given magnitude, negative where `below_zero`
    /// says so and the magnitude is not zero.
    pub fn new(below_zero: bool, numerator: U256, denominator: U256) -> (r: Exact)
        requires
            denominator@ > 0,
        ensures
            r.is_fraction(
                if below_zero {
                    -(numerator@ as int)
                } else {
                    numerator@ as int
                },
                denominator@ as int,
            ),
    {
        let negative = below_zero && !numerator.is_zero();
        Exact { negative, numerator, denominator }
    }
}

/// A well-formed fraction is determined by its signed numerator and its
/// denominator.
pub proof fn lemma_exact_determined(a: Exact, b: Exact, n: int, d: int)
    requires
        a.is_fraction(n, d),
        b.is_fraction(n, d),
    ensures
        a == b,
{
    lemma_view_injective(a.numerator, b.numerator);
    lemma_view_injective(a.denominator, b.denominator);
}

/// The sign of a fraction with a positive denominator is that of its
/// numerator.
pub proof fn lemma_ratio_sign(n: int, d: int)
    requires
        d > 0,
    ensures
        n > 0 <==> ratio(n, d) > 0 as real,
        n == 0 <==> ratio(n, d) == 0 as real,
        n < 0 <==> ratio(n, d) < 0 as real,
{
    let nr = n as real;
    let dr = d as real;
    assert(nr > 0 as real ==> nr / dr > 0 as real) by (nonlinear_arith)
        requires
            dr > 0 as real,
    ;
    assert(nr < 0 as real ==> nr / dr < 0 as real) by (nonlinear_arith)
        requires
            dr > 0 as real,
    ;
    assert(nr == 0 as real ==> nr / dr == 0 as real) by (nonlinear_arith)
        requires
            dr > 0 as real,
    ;
}

} // verus!
