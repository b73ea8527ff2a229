//! A sample given by its size and its number of successes.

use vstd::prelude::*;

use crate::count::{lemma_i32_order, lemma_u32_order, Count};
use crate::decimal::lemmas::{lemma_quotient_exact, lemma_quotient_monotonic, lemma_quotient_sign};
use crate::decimal::{Decimal, SCALE};
use crate::error::{negative_size, negative_size_text, successes_out_of_range, successes_text, Error};
use crate::sample::{acceptable_size, within_unit_range, Sample};

verus! {

/// Represents a sample as size and number of successes.
#[derive(Debug)]
pub struct NSuccessesSample<N> {
    pub(crate) size: N,
    pub(crate) n_successes: N,
}

impl<N: Count> NSuccessesSample<N> {
    /// The number of successes.
    pub closed spec fn successes(&self) -> N {
        self.n_successes
    }

    /// Returns the number of successes.
    pub fn n_successes(&self) -> (k: N)
        ensures
            k == self.successes(),
    {
        self.n_successes
    }

    /// Whether a number of successes lies between zero and the size.
    pub open spec fn acceptable_successes(size: N, n_successes: N) -> bool {
        Decimal::nought().at_most(n_successes.as_real()) && n_successes.as_real().at_most(
            size.as_real(),
        )
    }

    /// A sample is valid when its size is a number that is not negative and
    /// its number of successes lies between zero and the size.
    pub open spec fn valid(&self) -> bool {
        acceptable_size(self.trials()) && Self::acceptable_successes(
            self.trials(),
            self.successes(),
        )
    }

    /// Builds a sample from its size and number of successes. A size that
    /// is negative or not a number is refused first, then a number of
    /// successes outside `0..=size`.
    pub fn new(size: N, n_successes: N) -> (made: Result<Self, Error>)
        ensures
            made is Ok <==> acceptable_size(size) && Self::acceptable_successes(
                size,
                n_successes,
            ),
            made matches Ok(sample) ==> sample.trials() == size && sample.successes()
                == n_successes && sample.valid(),
            made matches Err(e) ==> e.text() == if !acceptable_size(size) {
                negative_size_text(size.text())
            } else {
                successes_text(n_successes.text(), size.text())
            },
    {
        let zero = N::zero().to_real();
        if !(size.to_real() >= zero) {
            return Err(negative_size(size.render().as_str()));
        }
        if !(n_successes.to_real() >= zero && n_successes.to_real() <= size.to_real()) {
            return Err(
                successes_out_of_range(n_successes.render().as_str(), size.render().as_str()),
            );
        }
        Ok(Self { size, n_successes })
    }
}

impl<N: Count> Sample<N> for NSuccessesSample<N> {
    closed spec fn trials(&self) -> N {
        self.size
    }

    open spec fn estimate(&self) -> Decimal {
        self.successes().as_real().over(self.trials().as_real())
    }

    fn size(&self) -> N {
        self.size
    }

    fn p_hat(&self) -> Decimal {
        self.n_successes.to_real() / self.size.to_real()
    }
}

/// With sizes and successes given as `i32`, a sample is refused exactly
/// when the size is negative or the number of successes is negative or
/// exceeds the size.
pub proof fn lemma_refused_i32(size: i32, n_successes: i32)
    ensures
        !(acceptable_size(size) && NSuccessesSample::<i32>::acceptable_successes(
            size,
            n_successes,
        )) <==> size < 0 || n_successes < 0 || n_successes > size,
{
    lemma_i32_order(size, n_successes);
    lemma_i32_order(n_successes, size);
}

/// With sizes and successes given as `u32`, a sample is refused exactly
/// when the number of successes exceeds the size.
pub proof fn lemma_refused_u32(size: u32, n_successes: u32)
    ensures
        !(acceptable_size(size) && NSuccessesSample::<u32>::acceptable_successes(
            size,
            n_successes,
        )) <==> n_successes > size,
{
    lemma_u32_order(size, n_successes);
    lemma_u32_order(n_successes, size);
}

/// In a valid sample of a positive size the point estimate lies between
/// zero and one.
pub proof fn lemma_estimate_in_unit_range<N: Count>(sample: NSuccessesSample<N>)
    requires
        sample.valid(),
        Decimal::nought().below(sample.trials().as_real()),
    ensures
        within_unit_range(sample.estimate()),
{
    let k = sample.successes().as_real().units();
    let n = sample.trials().as_real().units();
    lemma_quotient_sign(k * SCALE, n);
    lemma_quotient_monotonic(k * SCALE, n * SCALE, n);
    assert(n * SCALE == SCALE * n) by (nonlinear_arith);
    lemma_quotient_exact(SCALE as int, n);
}

} // verus!
