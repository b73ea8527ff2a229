//! Normal approximation interval, or Wald interval.

use vstd::prelude::*;

use crate::count::Count;
use crate::decimal::root::{floor_root, root_of_ratio};
use crate::decimal::{magnitude, Decimal, SCALE};
use crate::interval::CenteredInterval;
use crate::math::range::{estimable, inputs, signed};
use crate::sample::Sample;

verus! {

/// The margin `z * sqrt(p * (1 - p) / n)` in billionths, rounded down, for
/// `p`, `n` and a `z` that is not negative, all in billionths: the largest
/// `m` with `m * m * SCALE * n <= z * z * p * (SCALE - p)`.
pub open spec fn wald_margin_units(p: int, n: int, z: int) -> int {
    floor_root(((z * z) * (p * (SCALE - p))) / (SCALE * n))
}

/// The margin of the Wald interval, `z * sqrt(p * (1 - p) / n)`: the exact
/// value, rounded toward zero once. It exists for an estimate between zero
/// and one, a positive number of trials and a z-score in range.
pub open spec fn wald_margin(p: Decimal, n: Decimal, z: Decimal) -> Decimal {
    if estimable(p, n, z) {
        Decimal::of_units(
            signed(z.units(), wald_margin_units(p.units(), n.units(), magnitude(z.units()))),
        )
    } else {
        Decimal::Nan
    }
}

/// The Wald interval for a point estimate `p` seen in `n` trials, at the
/// z-score `z`: centred on `p`, with margin `z * sqrt(p * (1 - p) / n)`.
pub open spec fn wald_interval(p: Decimal, n: Decimal, z: Decimal) -> CenteredInterval {
    CenteredInterval { mean: p, margin: wald_margin(p, n, z) }
}

/// The margin of the Wald interval.
pub fn wald_margin_of(p: Decimal, n: Decimal, z: Decimal) -> (margin: Decimal)
    ensures
        margin == wald_margin(p, n, z),
{
    match inputs(p, n, z) {
        None => Decimal::Nan,
        Some(x) => {
            let s: u128 = SCALE as u128;
            assert(x.z * x.z <= 100_000_000_000_000 * 100_000_000_000_000) by (nonlinear_arith)
                requires
                    0 <= x.z <= 100_000_000_000_000,
            ;
            assert(0 <= x.p * (s - x.p) <= s * s) by (nonlinear_arith)
                requires
                    0 <= x.p <= s,
            ;
            let a: u128 = x.z * x.z;
            let b: u128 = x.p * (s - x.p);
            let divisor: u128 = s * x.n;
            assert(a * b <= 10_000_000_000_000_000_000_000_000_000
                * 1_000_000_000_000_000_000) by (nonlinear_arith)
                requires
                    0 <= a <= 10_000_000_000_000_000_000_000_000_000,
                    0 <= b <= 1_000_000_000_000_000_000,
            ;
            let m: u128 = root_of_ratio(a, b, divisor);
            if x.negative {
                Decimal::Finite(-(m as i64))
            } else {
                Decimal::Finite(m as i64)
            }
        },
    }
}

/// The Wald interval of a sample whose size is counted in `N`.
pub trait Wald<N> {
    /// The Wald interval of the sample at the given z-score.
    spec fn wald_value(&self, z_score: Decimal) -> CenteredInterval;

    /// Normal approximation interval, or Wald interval.
    fn wald(&self, z_score: Decimal) -> (interval: CenteredInterval)
        ensures
            interval == self.wald_value(z_score),
    ;
}

impl<S, N> Wald<N> for S where S: Sample<N>, N: Count {
    open spec fn wald_value(&self, z_score: Decimal) -> CenteredInterval {
        wald_interval(self.estimate(), self.trials().as_real(), z_score)
    }

    fn wald(&self, z_score: Decimal) -> CenteredInterval {
        let p_hat = self.p_hat();
        CenteredInterval {
            mean: p_hat,
            margin: wald_margin_of(p_hat, self.size().to_real(), z_score),
        }
    }
}

} // verus!
