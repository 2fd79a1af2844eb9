//! Exact non-negative fractions of whole units.

use vstd::prelude::*;

verus! {

/// A non-negative rational number, `numerator / denominator`.
#[derive(Clone, Copy, Debug, PartialEq, Eq, Structural)]
pub struct Rational {
    pub numerator: u128,
    pub denominator: u128,
}

impl Rational {
    /// The denominator is not zero.
    pub open spec fn is_valid(&self) -> bool {
        self.denominator > 0
    }

    /// The greatest whole number that is not above the value.
    pub open spec fn whole_part(&self) -> int {
        self.numerator as int / self.denominator as int
    }

    /// Both name the same number.
    pub open spec fn same_value(&self, other: Rational) -> bool {
        self.numerator * other.denominator == other.numerator * self.denominator
    }

    /// The value of `self` is not above that of `other`.
    pub open spec fn at_most(&self, other: Rational) -> bool {
        self.numerator * other.denominator <= other.numerator * self.denominator
    }

    /// The value rounded down to a whole number.
    pub fn floor(&self) -> (whole: u128)
        requires
            self.is_valid(),
        ensures
            whole == self.whole_part(),
    {
        self.numerator / self.denominator
    }
}

} // verus!
