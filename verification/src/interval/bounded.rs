//! Interval given by its lower and upper bounds.

use core::cmp::Ordering;
use vstd::prelude::*;
use vstd::std_specs::cmp::{PartialEqSpecImpl, PartialOrdSpecImpl};
use vstd::std_specs::convert::FromSpecImpl;
use vstd::std_specs::ops::{AddSpecImpl, MulSpecImpl};

use crate::decimal::{narrow, quotient, Decimal};
use crate::interval::{CenteredInterval, Interval};

verus! {

/// Interval represented by its lower and upper bounds.
#[must_use]
#[derive(Clone, Copy, Debug)]
pub struct BoundedInterval {
    pub lower: Decimal,
    pub upper: Decimal,
}

/// Half of `total` billionths, rounded toward zero; it can always be
/// held where `total` is the sum or the difference of two numbers that can.
pub open spec fn half(total: int) -> Decimal {
    Decimal::of_units(quotient(total, 2))
}

/// Half of the sum of two numbers.
pub open spec fn half_sum(a: Decimal, b: Decimal) -> Decimal {
    match (a, b) {
        (Decimal::Finite(x), Decimal::Finite(y)) => half(x + y),
        _ => Decimal::Nan,
    }
}

/// Half of the difference of two numbers.
pub open spec fn half_difference(a: Decimal, b: Decimal) -> Decimal {
    match (a, b) {
        (Decimal::Finite(x), Decimal::Finite(y)) => half(x - y),
        _ => Decimal::Nan,
    }
}

impl Interval for BoundedInterval {
    open spec fn center(&self) -> Decimal {
        half_sum(self.lower, self.upper)
    }

    open spec fn half_width(&self) -> Decimal {
        half_difference(self.upper, self.lower)
    }

    open spec fn low(&self) -> Decimal {
        self.lower
    }

    open spec fn high(&self) -> Decimal {
        self.upper
    }

    #[inline]
    fn mean(&self) -> Decimal {
        match (self.lower, self.upper) {
            (Decimal::Finite(lower), Decimal::Finite(upper)) => narrow(
                (lower as i128 + upper as i128) / 2,
            ),
            _ => Decimal::Nan,
        }
    }

    #[inline]
    fn margin(&self) -> Decimal {
        match (self.lower, self.upper) {
            (Decimal::Finite(lower), Decimal::Finite(upper)) => narrow(
                (upper as i128 - lower as i128) / 2,
            ),
            _ => Decimal::Nan,
        }
    }

    #[inline]
    fn lower(&self) -> Decimal {
        self.lower
    }

    #[inline]
    fn upper(&self) -> Decimal {
        self.upper
    }

    #[inline]
    fn bounds(&self) -> (Decimal, Decimal) {
        (self.lower, self.upper)
    }

    #[inline]
    fn contains(&self, point: Decimal) -> bool {
        point >= self.lower && point <= self.upper
    }
}

impl From<CenteredInterval> for BoundedInterval {
    fn from(interval: CenteredInterval) -> (bounded: BoundedInterval)
        ensures
            bounded.lower == interval.low(),
            bounded.upper == interval.high(),
    {
        BoundedInterval { lower: interval.lower(), upper: interval.upper() }
    }
}

impl FromSpecImpl<CenteredInterval> for BoundedInterval {
    open spec fn obeys_from_spec() -> bool {
        true
    }

    open spec fn from_spec(interval: CenteredInterval) -> BoundedInterval {
        BoundedInterval { lower: interval.low(), upper: interval.high() }
    }
}

impl core::ops::Add<Decimal> for BoundedInterval {
    type Output = BoundedInterval;

    fn add(self, rhs: Decimal) -> (shifted: BoundedInterval)
        ensures
            shifted.lower == self.lower.plus(rhs),
            shifted.upper == self.upper.plus(rhs),
    {
        BoundedInterval { lower: self.lower + rhs, upper: self.upper + rhs }
    }
}

impl AddSpecImpl<Decimal> for BoundedInterval {
    open spec fn obeys_add_spec() -> bool {
        true
    }

    open spec fn add_req(self, rhs: Decimal) -> bool {
        true
    }

    open spec fn add_spec(self, rhs: Decimal) -> BoundedInterval {
        BoundedInterval { lower: self.lower.plus(rhs), upper: self.upper.plus(rhs) }
    }
}

impl core::ops::Mul<Decimal> for BoundedInterval {
    type Output = BoundedInterval;

    fn mul(self, rhs: Decimal) -> (scaled: BoundedInterval)
        ensures
            scaled.lower == self.lower.times(rhs),
            scaled.upper == self.upper.times(rhs),
    {
        BoundedInterval { lower: self.lower * rhs, upper: self.upper * rhs }
    }
}

impl MulSpecImpl<Decimal> for BoundedInterval {
    open spec fn obeys_mul_spec() -> bool {
        true
    }

    open spec fn mul_req(self, rhs: Decimal) -> bool {
        true
    }

    open spec fn mul_spec(self, rhs: Decimal) -> BoundedInterval {
        BoundedInterval { lower: self.lower.times(rhs), upper: self.upper.times(rhs) }
    }
}

impl PartialEq for BoundedInterval {
    fn eq(&self, _other: &BoundedInterval) -> (equal: bool)
        ensures
            !equal,
    {
        false
    }
}

impl PartialEqSpecImpl for BoundedInterval {
    open spec fn obeys_eq_spec() -> bool {
        true
    }

    open spec fn eq_spec(&self, _other: &BoundedInterval) -> bool {
        false
    }
}

impl PartialOrd for BoundedInterval {
    fn partial_cmp(&self, other: &BoundedInterval) -> (order: Option<Ordering>)
        ensures
            order == Some(Ordering::Less) <==> self.high().below(other.low()),
            order == Some(Ordering::Greater) <==> !self.high().below(other.low())
                && other.high().below(self.low()),
            order != Some(Ordering::Equal),
    {
        if self.upper < other.lower {
            Some(Ordering::Less)
        } else if self.lower > other.upper {
            Some(Ordering::Greater)
        } else {
            None
        }
    }
}

impl PartialOrdSpecImpl for BoundedInterval {
    open spec fn obeys_partial_cmp_spec() -> bool {
        true
    }

    open spec fn partial_cmp_spec(&self, other: &BoundedInterval) -> Option<Ordering> {
        if self.upper.below(other.lower) {
            Some(Ordering::Less)
        } else if other.upper.below(self.lower) {
            Some(Ordering::Greater)
        } else {
            None
        }
    }
}

impl PartialEq<Decimal> for BoundedInterval {
    fn eq(&self, _other: &Decimal) -> (equal: bool)
        ensures
            !equal,
    {
        false
    }
}

impl PartialEqSpecImpl<Decimal> for BoundedInterval {
    open spec fn obeys_eq_spec() -> bool {
        true
    }

    open spec fn eq_spec(&self, _other: &Decimal) -> bool {
        false
    }
}

impl PartialOrd<Decimal> for BoundedInterval {
    fn partial_cmp(&self, other: &Decimal) -> (order: Option<Ordering>)
        ensures
            order == Some(Ordering::Less) <==> self.high().below(*other),
            order == Some(Ordering::Greater) <==> !self.high().below(*other) && other.below(
                self.low(),
            ),
            order != Some(Ordering::Equal),
    {
        if &self.upper < other {
            Some(Ordering::Less)
        } else if &self.lower > other {
            Some(Ordering::Greater)
        } else {
            None
        }
    }
}

impl PartialOrdSpecImpl<Decimal> for BoundedInterval {
    open spec fn obeys_partial_cmp_spec() -> bool {
        true
    }

    open spec fn partial_cmp_spec(&self, other: &Decimal) -> Option<Ordering> {
        if self.upper.below(*other) {
            Some(Ordering::Less)
        } else if other.below(self.lower) {
            Some(Ordering::Greater)
        } else {
            None
        }
    }
}

} // verus!
