//! What holds of intervals whichever way they were obtained.

use vstd::prelude::*;
use vstd::std_specs::convert::FromSpec;

use crate::decimal::{magnitude, quotient, Decimal, SCALE};
use crate::interval::{BoundedInterval, CenteredInterval, Interval};

verus! {

/// An interval in centre form whose margin is not negative has its mean
/// between its bounds, provided that the bounds can be held.
pub proof fn lemma_centered_ordered(interval: CenteredInterval)
    requires
        Decimal::nought().at_most(interval.margin),
        interval.low().finite(),
        interval.high().finite(),
    ensures
        interval.low().at_most(interval.center()),
        interval.center().at_most(interval.high()),
{
}

/// An interval in bound form whose lower bound does not exceed its upper
/// bound has its mean between its bounds.
pub proof fn lemma_bounded_ordered(interval: BoundedInterval)
    requires
        interval.lower.at_most(interval.upper),
    ensures
        interval.center().finite(),
        interval.half_width().finite(),
        interval.low().at_most(interval.center()),
        interval.center().at_most(interval.high()),
        Decimal::nought().at_most(interval.half_width()),
{
    let l = interval.lower.units();
    let u = interval.upper.units();
    lemma_half(l + u);
    lemma_half(u - l);
}

/// Half of a whole number, rounded toward zero.
pub proof fn lemma_half(total: int)
    ensures
        total >= 0 ==> quotient(total, 2) == total / 2,
        total < 0 ==> quotient(total, 2) == -((-total) / 2),
        quotient(total + total, 2) == total,
{
    assert(magnitude(2) == 2);
}

/// Turning an interval in centre form into bound form and back gives the
/// interval that one started from, wherever its two bounds can be held.
pub proof fn lemma_round_trip(interval: CenteredInterval)
    requires
        interval.low().finite(),
        interval.high().finite(),
    ensures
        CenteredInterval::from_spec(BoundedInterval::from_spec(interval)) == interval,
{
    let m = interval.mean.units();
    let g = interval.margin.units();
    lemma_half(m);
    lemma_half(g);
    assert((m - g) + (m + g) == m + m);
    assert((m + g) - (m - g) == g + g);
}

/// The bounds of an interval in centre form can be held where its mean and
/// margin are numbers of a magnitude of at most four billion.
pub proof fn lemma_bounds_in_range(interval: CenteredInterval)
    requires
        interval.mean.finite(),
        interval.margin.finite(),
        -4_000_000_000 * SCALE <= interval.mean.units() <= 4_000_000_000 * SCALE,
        -4_000_000_000 * SCALE <= interval.margin.units() <= 4_000_000_000 * SCALE,
    ensures
        interval.low().finite(),
        interval.high().finite(),
{
}

/// Whether the first interval lies wholly below the second: the condition
/// on which the two compare as less.
pub open spec fn precedes<A: Interval, B: Interval>(first: A, second: B) -> bool {
    first.high().below(second.low())
}

/// Among intervals whose lower bound does not exceed their upper bound,
/// lying wholly below is a strict partial order: no interval lies below
/// itself, no two lie below each other, and what lies below an interval
/// lies below all that the interval lies below.
pub proof fn lemma_strict_partial_order<A: Interval, B: Interval, C: Interval>(a: A, b: B, c: C)
    requires
        a.low().at_most(a.high()),
        b.low().at_most(b.high()),
        c.low().at_most(c.high()),
    ensures
        !precedes(a, a),
        precedes(a, b) ==> !precedes(b, a),
        precedes(a, b) && precedes(b, c) ==> precedes(a, c),
{
}

} // verus!
