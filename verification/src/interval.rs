//! Numeric ranges in two interchangeable forms: centre with margin, and
//! lower with upper bound.

use vstd::prelude::*;

use crate::decimal::Decimal;

pub mod bounded;
pub mod centered;
pub mod lemmas;

pub use self::bounded::BoundedInterval;
pub use self::centered::CenteredInterval;

verus! {

/// An interval held as its mean and margin.
pub type MeanMarginInterval = CenteredInterval;

/// An interval held as its lower and upper bounds.
pub type LowerUpperInterval = BoundedInterval;

/// What every form of interval can report.
pub trait Interval {
    /// The centre of the interval.
    spec fn center(&self) -> Decimal;

    /// Half the width of the interval.
    spec fn half_width(&self) -> Decimal;

    /// The lower end of the interval.
    spec fn low(&self) -> Decimal;

    /// The upper end of the interval.
    spec fn high(&self) -> Decimal;

    /// Returns the interval's mean.
    fn mean(&self) -> (m: Decimal)
        ensures
            m == self.center(),
    ;

    /// Returns the interval's margin.
    fn margin(&self) -> (m: Decimal)
        ensures
            m == self.half_width(),
    ;

    /// Returns the interval's lower bound.
    fn lower(&self) -> (l: Decimal)
        ensures
            l == self.low(),
    ;

    /// Returns the interval's upper bound.
    fn upper(&self) -> (u: Decimal)
        ensures
            u == self.high(),
    ;

    /// Returns the interval's bounds as a pair.
    fn bounds(&self) -> (b: (Decimal, Decimal))
        ensures
            b == (self.low(), self.high()),
    ;

    /// Returns whether the interval contains the specified point.
    fn contains(&self, point: Decimal) -> (inside: bool)
        ensures
            inside == (self.low().at_most(point) && point.at_most(self.high())),
    ;
}

} // verus!
