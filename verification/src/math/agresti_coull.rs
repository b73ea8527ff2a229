//! Agresti-Coull interval.

use vstd::prelude::*;

use crate::count::Count;
use crate::decimal::{magnitude, narrow, Decimal, SCALE};
use crate::interval::CenteredInterval;
use crate::math::range::{inputs, z_score_in_range};
use crate::math::wald::{wald_interval, Wald};
use crate::math::wilson_score::{center_units, wilson_center, wilson_center_of};
use crate::sample::{NSuccessesSample, ProportionSample, Sample};

verus! {

/// The Agresti-Coull interval for a point estimate `p` seen in `n` trials,
/// at the z-score `z`: the Wald interval of a sample of `n + z * z` trials
/// whose estimate is the centre of the Wilson score interval.
pub open spec fn agresti_coull_interval(p: Decimal, n: Decimal, z: Decimal) -> CenteredInterval {
    wald_interval(wilson_center(p, n, z), n.plus(z.times(z)), z)
}

/// The centre `(k + z * z / 2) / (n + z * z)` for `k` successes in `n`
/// trials: the exact value, rounded down once. It exists for a positive
/// number of trials, a number of successes between zero and that number,
/// and a z-score in range.
pub open spec fn counted_center(k: Decimal, n: Decimal, z: Decimal) -> Decimal {
    if Decimal::nought().at_most(k) && k.at_most(n) && Decimal::nought().below(n)
        && z_score_in_range(z) {
        Decimal::of_units(
            center_units(2 * (k.units() * SCALE), n.units(), magnitude(z.units())),
        )
    } else {
        Decimal::Nan
    }
}

/// The Agresti-Coull interval for `k` successes in `n` trials, at the
/// z-score `z`: the Wald interval of a sample of `n + z * z` trials whose
/// estimate is `(k + z * z / 2) / (n + z * z)`.
pub open spec fn counted_agresti_coull_interval(k: Decimal, n: Decimal, z: Decimal)
    -> CenteredInterval {
    wald_interval(counted_center(k, n, z), n.plus(z.times(z)), z)
}

/// The centre `(k + z * z / 2) / (n + z * z)` for `k` successes in `n`
/// trials.
pub fn counted_center_of(k: Decimal, n: Decimal, z: Decimal) -> (center: Decimal)
    ensures
        center == counted_center(k, n, z),
{
    match (k, inputs(Decimal::zero(), n, z)) {
        (Decimal::Finite(k), Some(x)) => {
            if 0 <= k && k as u128 <= x.n {
                let s: u128 = SCALE as u128;
                assert(x.z * x.z <= 100_000_000_000_000 * 100_000_000_000_000)
                    by (nonlinear_arith)
                    requires
                        0 <= x.z <= 100_000_000_000_000,
                ;
                let zz: u128 = x.z * x.z;
                let divisor: u128 = 2 * (x.n * s + zz);
                let numerator: u128 = s * (2 * (k as u128 * s) + zz);
                assert(numerator as int / divisor as int <= numerator) by (nonlinear_arith)
                    requires
                        numerator >= 0,
                        divisor > 0,
                ;
                narrow((numerator / divisor) as i128)
            } else {
                Decimal::Nan
            }
        },
        _ => Decimal::Nan,
    }
}

/// The Agresti-Coull interval of a sample whose size is counted in `N`.
pub trait AgrestiCoull<N> {
    /// The Agresti-Coull interval of the sample at the given z-score.
    spec fn agresti_coull_value(&self, z_score: Decimal) -> CenteredInterval;

    /// Agresti-Coull interval.
    fn agresti_coull(&self, z_score: Decimal) -> (interval: CenteredInterval)
        ensures
            interval == self.agresti_coull_value(z_score),
    ;
}

impl<N: Count> AgrestiCoull<N> for ProportionSample<N> {
    open spec fn agresti_coull_value(&self, z_score: Decimal) -> CenteredInterval {
        agresti_coull_interval(self.estimate(), self.trials().as_real(), z_score)
    }

    fn agresti_coull(&self, z_score: Decimal) -> CenteredInterval {
        let p_tilde = wilson_center_of(self.p_hat(), self.size().to_real(), z_score);
        let n_tilde = self.size().to_real() + z_score * z_score;
        let corrected_sample = ProportionSample::derived(n_tilde, p_tilde);
        corrected_sample.wald(z_score)
    }
}

impl<N: Count> AgrestiCoull<N> for NSuccessesSample<N> {
    open spec fn agresti_coull_value(&self, z_score: Decimal) -> CenteredInterval {
        counted_agresti_coull_interval(
            self.successes().as_real(),
            self.trials().as_real(),
            z_score,
        )
    }

    fn agresti_coull(&self, z_score: Decimal) -> CenteredInterval {
        let z_squared = z_score * z_score;
        let n_tilde = self.size().to_real() + z_squared;
        let p_tilde = counted_center_of(self.n_successes().to_real(), self.size().to_real(), z_score);
        let corrected_sample = ProportionSample::derived(n_tilde, p_tilde);
        corrected_sample.wald(z_score)
    }
}

} // verus!
