//! A sample given by its size and the proportion of successes seen.

use vstd::prelude::*;
use vstd::std_specs::convert::FromSpecImpl;

use crate::decimal::Decimal;
use crate::error::{
    negative_size, negative_size_text, proportion_out_of_range, proportion_text, Error,
};
use crate::count::{lemma_i32_order, lemma_u32_order, Count};
use crate::sample::n_successes::lemma_estimate_in_unit_range;
use crate::sample::{acceptable_size, within_unit_range, NSuccessesSample, Sample};
use crate::text::{decimal_string, decimal_text};

verus! {

/// Represents a sample with its size and proportion.
#[derive(Debug)]
pub struct ProportionSample<N> {
    pub(crate) size: N,
    pub(crate) proportion: Decimal,
}

/// A sample whose proportion of successes was observed directly.
pub type PHatSample<N> = ProportionSample<N>;

impl<N: Count> ProportionSample<N> {
    /// A sample is valid when its size is a number that is not negative and
    /// its proportion lies between zero and one.
    pub open spec fn valid(&self) -> bool {
        acceptable_size(self.trials()) && within_unit_range(self.estimate())
    }

    /// Builds a sample from its size and proportion. A size that is
    /// negative or not a number is refused first, then a proportion that
    /// does not lie in `0..=1`.
    pub fn new(size: N, proportion: Decimal) -> (made: Result<Self, Error>)
        ensures
            made is Ok <==> acceptable_size(size) && within_unit_range(proportion),
            made matches Ok(sample) ==> sample.trials() == size && sample.estimate() == proportion
                && sample.valid(),
            made matches Err(e) ==> e.text() == if !acceptable_size(size) {
                negative_size_text(size.text())
            } else {
                proportion_text(decimal_text(proportion))
            },
    {
        if !(size.to_real() >= N::zero().to_real()) {
            return Err(negative_size(size.render().as_str()));
        }
        if !(proportion >= Decimal::zero() && proportion <= Decimal::one()) {
            return Err(proportion_out_of_range(decimal_string(proportion).as_str()));
        }
        Ok(Self { size, proportion })
    }
}

impl<N: Count> Sample<N> for ProportionSample<N> {
    closed spec fn trials(&self) -> N {
        self.size
    }

    closed spec fn estimate(&self) -> Decimal {
        self.proportion
    }

    fn size(&self) -> N {
        self.size
    }

    fn p_hat(&self) -> Decimal {
        self.proportion
    }
}

impl<N: Count> From<NSuccessesSample<N>> for ProportionSample<N> {
    fn from(other: NSuccessesSample<N>) -> (sample: ProportionSample<N>)
        ensures
            sample.trials() == other.trials(),
            sample.estimate() == other.estimate(),
            other.valid() && Decimal::nought().below(other.trials().as_real()) ==> sample.valid(),
    {
        proof {
            if other.valid() && Decimal::nought().below(other.trials().as_real()) {
                lemma_estimate_in_unit_range(other);
            }
        }
        Self { size: other.size(), proportion: other.p_hat() }
    }
}

impl<N: Count> FromSpecImpl<NSuccessesSample<N>> for ProportionSample<N> {
    open spec fn obeys_from_spec() -> bool {
        true
    }

    open spec fn from_spec(other: NSuccessesSample<N>) -> ProportionSample<N> {
        Self::of(other.trials(), other.estimate())
    }
}

impl<N: Count> ProportionSample<N> {
    /// The sample of the given size and proportion.
    pub closed spec fn of(size: N, proportion: Decimal) -> Self {
        Self { size, proportion }
    }

    /// Builds a sample without testing its parts, for the samples that an
    /// estimate derives from the one it was given.
    pub(crate) fn derived(size: N, proportion: Decimal) -> (sample: Self)
        ensures
            sample == Self::of(size, proportion),
            sample.trials() == size,
            sample.estimate() == proportion,
    {
        Self { size, proportion }
    }
}

/// With sizes given as `i32`, a sample is refused exactly when the size
/// is negative or the proportion does not lie between zero and one.
pub proof fn lemma_proportion_refused_i32(size: i32, proportion: Decimal)
    ensures
        !(acceptable_size(size) && within_unit_range(proportion)) <==> size < 0
            || !within_unit_range(proportion),
{
    lemma_i32_order(size, size);
}

/// With sizes given as `u32`, a sample is refused exactly when the
/// proportion does not lie between zero and one.
pub proof fn lemma_proportion_refused_u32(size: u32, proportion: Decimal)
    ensures
        !(acceptable_size(size) && within_unit_range(proportion)) <==> !within_unit_range(
            proportion,
        ),
{
    lemma_u32_order(size, size);
}

} // verus!
