//! Observed samples: a number of trials with the outcome that was seen.

use vstd::prelude::*;

use crate::count::Count;
use crate::decimal::Decimal;

pub mod n_successes;
pub mod proportion;

pub use self::n_successes::NSuccessesSample;
pub use self::proportion::{PHatSample, ProportionSample};

verus! {

/// What every sample can report.
pub trait Sample<N: Count> {
    /// The number of trials.
    spec fn trials(&self) -> N;

    /// The point estimate of the proportion of successes.
    spec fn estimate(&self) -> Decimal;

    /// Returns the number of trials.
    fn size(&self) -> (n: N)
        ensures
            n == self.trials(),
    ;

    /// Returns the point estimate of the proportion of successes.
    fn p_hat(&self) -> (p: Decimal)
        ensures
            p == self.estimate(),
    ;
}

/// Whether a count can be a sample's size: it is a number, and not
/// negative.
pub open spec fn acceptable_size<N: Count>(count: N) -> bool {
    Decimal::nought().at_most(count.as_real())
}

/// Whether a proportion lies between zero and one, both included. What is
/// not a number does not.
pub open spec fn within_unit_range(proportion: Decimal) -> bool {
    Decimal::nought().at_most(proportion) && proportion.at_most(Decimal::unit())
}

} // verus!
