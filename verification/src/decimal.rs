//! A checked decimal fixed-point number with nine fractional digits.
//!
//! Every operation is total: where the exact result cannot be held, or where
//! real arithmetic has none, the outcome is [`Decimal::Nan`], which every
//! later operation hands on.

use vstd::prelude::*;

pub mod lemmas;
pub mod ops;
pub mod order;
pub mod root;

verus! {

/// Number of units that make up the value one.
pub const SCALE: i64 = 1_000_000_000;

/// A real number held as a count of billionths, or the absence of a number.
#[derive(Clone, Copy, Debug)]
pub enum Decimal {
    /// A number, given in billionths.
    Finite(i64),
    /// The outcome of an operation that has no representable result.
    Nan,
}

/// The magnitude of an integer.
pub open spec fn magnitude(n: int) -> int {
    if n < 0 {
        -n
    } else {
        n
    }
}

/// Integer division that rounds toward zero.
pub open spec fn quotient(n: int, d: int) -> int
    recommends
        d != 0,
{
    let q = magnitude(n) / magnitude(d);
    if (n < 0) != (d < 0) {
        -q
    } else {
        q
    }
}

impl Decimal {
    /// The number that `units` billionths stand for, if it can be held.
    pub open spec fn of_units(units: int) -> Decimal {
        if i64::MIN <= units <= i64::MAX {
            Decimal::Finite(units as i64)
        } else {
            Decimal::Nan
        }
    }

    /// Whether this is a number.
    pub open spec fn finite(self) -> bool {
        self is Finite
    }

    /// The number in billionths; zero stands in for `Nan`.
    pub open spec fn units(self) -> int
        recommends
            self.finite(),
    {
        match self {
            Decimal::Finite(u) => u as int,
            Decimal::Nan => 0,
        }
    }

    /// The value zero.
    pub open spec fn nought() -> Decimal {
        Decimal::Finite(0)
    }

    /// The value one.
    pub open spec fn unit() -> Decimal {
        Decimal::Finite(SCALE)
    }

    /// Sum.
    pub open spec fn plus(self, rhs: Decimal) -> Decimal {
        match (self, rhs) {
            (Decimal::Finite(a), Decimal::Finite(b)) => Decimal::of_units(a + b),
            _ => Decimal::Nan,
        }
    }

    /// Difference.
    pub open spec fn minus(self, rhs: Decimal) -> Decimal {
        match (self, rhs) {
            (Decimal::Finite(a), Decimal::Finite(b)) => Decimal::of_units(a - b),
            _ => Decimal::Nan,
        }
    }

    /// Product, rounded toward zero to a whole number of billionths.
    pub open spec fn times(self, rhs: Decimal) -> Decimal {
        match (self, rhs) {
            (Decimal::Finite(a), Decimal::Finite(b)) => Decimal::of_units(
                quotient(a * b, SCALE as int),
            ),
            _ => Decimal::Nan,
        }
    }

    /// Ratio, rounded toward zero to a whole number of billionths; division
    /// by zero gives `Nan`.
    pub open spec fn over(self, rhs: Decimal) -> Decimal {
        match (self, rhs) {
            (Decimal::Finite(a), Decimal::Finite(b)) => if b == 0 {
                Decimal::Nan
            } else {
                Decimal::of_units(quotient(a * SCALE, b as int))
            },
            _ => Decimal::Nan,
        }
    }

    /// Strictly less than; false whenever either side is `Nan`.
    pub open spec fn below(self, rhs: Decimal) -> bool {
        self.finite() && rhs.finite() && self.units() < rhs.units()
    }

    /// Less than or equal; false whenever either side is `Nan`.
    pub open spec fn at_most(self, rhs: Decimal) -> bool {
        self.finite() && rhs.finite() && self.units() <= rhs.units()
    }

    /// The larger of the two; where one is `Nan`, the other.
    pub open spec fn larger(self, rhs: Decimal) -> Decimal {
        match (self, rhs) {
            (Decimal::Finite(a), Decimal::Finite(b)) => if a < b {
                rhs
            } else {
                self
            },
            (Decimal::Finite(_), Decimal::Nan) => self,
            _ => rhs,
        }
    }

    /// The smaller of the two; where one is `Nan`, the other.
    pub open spec fn smaller(self, rhs: Decimal) -> Decimal {
        match (self, rhs) {
            (Decimal::Finite(a), Decimal::Finite(b)) => if b < a {
                rhs
            } else {
                self
            },
            (Decimal::Finite(_), Decimal::Nan) => self,
            _ => rhs,
        }
    }

    /// Zero.
    pub fn zero() -> (z: Decimal)
        ensures
            z == Decimal::nought(),
    {
        Decimal::Finite(0)
    }

    /// One.
    pub fn one() -> (o: Decimal)
        ensures
            o == Decimal::unit(),
    {
        Decimal::Finite(SCALE)
    }

    /// Whether this is a number.
    pub fn is_finite(&self) -> (f: bool)
        ensures
            f == self.finite(),
    {
        match self {
            Decimal::Finite(_) => true,
            Decimal::Nan => false,
        }
    }

    /// Whether this is the absence of a number.
    pub fn is_nan(&self) -> (n: bool)
        ensures
            n == !self.finite(),
    {
        !self.is_finite()
    }

    /// The larger of the two; where one is `Nan`, the other.
    pub fn max(self, rhs: Decimal) -> (m: Decimal)
        ensures
            m == self.larger(rhs),
    {
        match (self, rhs) {
            (Decimal::Finite(a), Decimal::Finite(b)) => if a < b {
                rhs
            } else {
                self
            },
            (Decimal::Finite(_), Decimal::Nan) => self,
            _ => rhs,
        }
    }

    /// The smaller of the two; where one is `Nan`, the other.
    pub fn min(self, rhs: Decimal) -> (m: Decimal)
        ensures
            m == self.smaller(rhs),
    {
        match (self, rhs) {
            (Decimal::Finite(a), Decimal::Finite(b)) => if b < a {
                rhs
            } else {
                self
            },
            (Decimal::Finite(_), Decimal::Nan) => self,
            _ => rhs,
        }
    }
}

/// The decimal that a wide count of billionths stands for.
pub(crate) fn narrow(wide: i128) -> (d: Decimal)
    ensures
        d == Decimal::of_units(wide as int),
{
    if wide < i64::MIN as i128 || wide > i64::MAX as i128 {
        Decimal::Nan
    } else {
        Decimal::Finite(wide as i64)
    }
}

} // verus!
