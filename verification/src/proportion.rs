//! The two ways in which an observed proportion can be given.

use vstd::prelude::*;

use crate::count::Count;
use crate::decimal::Decimal;
use crate::error::{p_hat_out_of_range, p_hat_text, Error};
use crate::sample::within_unit_range;
use crate::text::{decimal_string, decimal_text};

verus! {

/// Specifies an input proportion,
#[derive(Debug)]
pub enum Proportion<N> {
    /// As number of successes.
    NSuccesses(N),
    /// As sample proportion.
    #[non_exhaustive]
    PHat(Decimal),
}

impl<N: Count> Proportion<N> {
    /// The proportion that is given by `p_hat`, which has to lie between
    /// zero and one.
    pub fn new_with_p_hat(p_hat: Decimal) -> (made: Result<Self, Error>)
        ensures
            made is Ok <==> within_unit_range(p_hat),
            made matches Ok(proportion) ==> proportion == Proportion::<N>::PHat(p_hat),
            made matches Err(e) ==> e.text() == p_hat_text(decimal_text(p_hat)),
    {
        if p_hat >= Decimal::zero() && p_hat <= Decimal::one() {
            Ok(Self::PHat(p_hat))
        } else {
            Err(p_hat_out_of_range(decimal_string(p_hat).as_str()))
        }
    }

    /// The point estimate that the proportion stands for in a sample of the
    /// given size.
    pub open spec fn estimate(&self, size: N) -> Decimal {
        match self {
            Proportion::NSuccesses(n_successes) => n_successes.as_real().over(size.as_real()),
            Proportion::PHat(p_hat) => *p_hat,
        }
    }

    /// Resolves the proportion to a point estimate, in a sample of the given
    /// size.
    pub fn p_hat(&self, size: N) -> (p: Decimal)
        ensures
            p == self.estimate(size),
    {
        match self {
            Proportion::NSuccesses(n_successes) => n_successes.to_real() / size.to_real(),
            Proportion::PHat(p_hat) => *p_hat,
        }
    }
}

} // verus!
