//! Interval given by its mean and margin.

use core::cmp::Ordering;
use vstd::prelude::*;
use vstd::std_specs::cmp::{PartialEqSpecImpl, PartialOrdSpecImpl};
use vstd::std_specs::convert::FromSpecImpl;
use vstd::std_specs::ops::{AddSpecImpl, MulSpecImpl};

use crate::decimal::Decimal;
use crate::interval::{BoundedInterval, Interval};

verus! {

/// Represents an interval with its mean and margin.
#[must_use]
#[derive(Clone, Copy, Debug)]
pub struct CenteredInterval {
    pub mean: Decimal,
    pub margin: Decimal,
}

impl Interval for CenteredInterval {
    open spec fn center(&self) -> Decimal {
        self.mean
    }

    open spec fn half_width(&self) -> Decimal {
        self.margin
    }

    open spec fn low(&self) -> Decimal {
        self.mean.minus(self.margin)
    }

    open spec fn high(&self) -> Decimal {
        self.mean.plus(self.margin)
    }

    #[inline]
    fn mean(&self) -> Decimal {
        self.mean
    }

    #[inline]
    fn margin(&self) -> Decimal {
        self.margin
    }

    #[inline]
    fn lower(&self) -> Decimal {
        self.mean - self.margin
    }

    #[inline]
    fn upper(&self) -> Decimal {
        self.mean + self.margin
    }

    #[inline]
    fn bounds(&self) -> (Decimal, Decimal) {
        (self.lower(), self.upper())
    }

    #[inline]
    fn contains(&self, point: Decimal) -> bool {
        point >= self.lower() && point <= self.upper()
    }
}

impl From<BoundedInterval> for CenteredInterval {
    fn from(interval: BoundedInterval) -> (centered: CenteredInterval)
        ensures
            centered.mean == interval.center(),
            centered.margin == interval.half_width(),
    {
        CenteredInterval { mean: interval.mean(), margin: interval.margin() }
    }
}

impl FromSpecImpl<BoundedInterval> for CenteredInterval {
    open spec fn obeys_from_spec() -> bool {
        true
    }

    open spec fn from_spec(interval: BoundedInterval) -> CenteredInterval {
        CenteredInterval { mean: interval.center(), margin: interval.half_width() }
    }
}

impl core::ops::Add<Decimal> for CenteredInterval {
    type Output = CenteredInterval;

    fn add(self, rhs: Decimal) -> (shifted: CenteredInterval)
        ensures
            shifted.mean == self.mean.plus(rhs),
            shifted.margin == self.margin,
    {
        CenteredInterval { mean: self.mean + rhs, margin: self.margin }
    }
}

impl AddSpecImpl<Decimal> for CenteredInterval {
    open spec fn obeys_add_spec() -> bool {
        true
    }

    open spec fn add_req(self, rhs: Decimal) -> bool {
        true
    }

    open spec fn add_spec(self, rhs: Decimal) -> CenteredInterval {
        CenteredInterval { mean: self.mean.plus(rhs), margin: self.margin }
    }
}

impl core::ops::Mul<Decimal> for CenteredInterval {
    type Output = CenteredInterval;

    fn mul(self, rhs: Decimal) -> (scaled: CenteredInterval)
        ensures
            scaled.mean == self.mean.times(rhs),
            scaled.margin == self.margin.times(rhs),
    {
        CenteredInterval { mean: self.mean * rhs, margin: self.margin * rhs }
    }
}

impl MulSpecImpl<Decimal> for CenteredInterval {
    open spec fn obeys_mul_spec() -> bool {
        true
    }

    open spec fn mul_req(self, rhs: Decimal) -> bool {
        true
    }

    open spec fn mul_spec(self, rhs: Decimal) -> CenteredInterval {
        CenteredInterval { mean: self.mean.times(rhs), margin: self.margin.times(rhs) }
    }
}

impl PartialEq for CenteredInterval {
    fn eq(&self, _other: &CenteredInterval) -> (equal: bool)
        ensures
            !equal,
    {
        false
    }
}

impl PartialEqSpecImpl for CenteredInterval {
    open spec fn obeys_eq_spec() -> bool {
        true
    }

    open spec fn eq_spec(&self, _other: &CenteredInterval) -> bool {
        false
    }
}

impl PartialOrd for CenteredInterval {
    fn partial_cmp(&self, other: &CenteredInterval) -> (order: Option<Ordering>)
        ensures
            order == Some(Ordering::Less) <==> self.high().below(other.low()),
            order == Some(Ordering::Greater) <==> !self.high().below(other.low())
                && other.high().below(self.low()),
            order != Some(Ordering::Equal),
    {
        if self.upper() < other.lower() {
            Some(Ordering::Less)
        } else if self.lower() > other.upper() {
            Some(Ordering::Greater)
        } else {
            None
        }
    }
}

impl PartialOrdSpecImpl for CenteredInterval {
    open spec fn obeys_partial_cmp_spec() -> bool {
        true
    }

    open spec fn partial_cmp_spec(&self, other: &CenteredInterval) -> Option<Ordering> {
        if self.high().below(other.low()) {
            Some(Ordering::Less)
        } else if other.high().below(self.low()) {
            Some(Ordering::Greater)
        } else {
            None
        }
    }
}

impl PartialEq<Decimal> for CenteredInterval {
    fn eq(&self, _other: &Decimal) -> (equal: bool)
        ensures
            !equal,
    {
        false
    }
}

impl PartialEqSpecImpl<Decimal> for CenteredInterval {
    open spec fn obeys_eq_spec() -> bool {
        true
    }

    open spec fn eq_spec(&self, _other: &Decimal) -> bool {
        false
    }
}

impl PartialOrd<Decimal> for CenteredInterval {
    fn partial_cmp(&self, other: &Decimal) -> (order: Option<Ordering>)
        ensures
            order == Some(Ordering::Less) <==> self.high().below(*other),
            order == Some(Ordering::Greater) <==> !self.high().below(*other) && other.below(
                self.low(),
            ),
            order != Some(Ordering::Equal),
    {
        if &self.upper() < other {
            Some(Ordering::Less)
        } else if &self.lower() > other {
            Some(Ordering::Greater)
        } else {
            None
        }
    }
}

impl PartialOrdSpecImpl<Decimal> for CenteredInterval {
    open spec fn obeys_partial_cmp_spec() -> bool {
        true
    }

    open spec fn partial_cmp_spec(&self, other: &Decimal) -> Option<Ordering> {
        if self.high().below(*other) {
            Some(Ordering::Less)
        } else if other.below(self.low()) {
            Some(Ordering::Greater)
        } else {
            None
        }
    }
}

} // verus!
