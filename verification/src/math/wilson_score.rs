//! Wilson score intervals.

use vstd::prelude::*;

use crate::count::Count;
use crate::decimal::root::{ceil_root, floor_root, root_of_product};
use crate::decimal::{magnitude, narrow, Decimal, SCALE};
use crate::interval::{BoundedInterval, CenteredInterval};
use crate::math::range::{ceil_ratio, estimable, floor_ratio, inputs, signed, Inputs};
use crate::sample::Sample;
use crate::wide::Wide;

verus! {

/// The number of trials plus the squared z-score, `n + z * z`, in
/// billionths of billionths.
pub open spec fn total(n: int, z: int) -> int {
    n * SCALE + z * z
}

/// The centre `(t + z * z / 2) / (n + z * z)` in billionths, rounded down,
/// where `twice` is twice the number of successes `t`, in billionths of
/// billionths, and `n` and `z` are in billionths.
pub open spec fn center_units(twice: int, n: int, z: int) -> int {
    (SCALE * (twice + z * z)) / (2 * total(n, z))
}

/// The square of `z * sqrt(4 * n * p * (1 - p) + z * z)`, scaled to whole
/// numbers: what the margin is the root of, before it is divided by
/// `2 * (n + z * z)`.
pub open spec fn radicand(p: int, n: int, z: int) -> int {
    (SCALE * (z * z)) * (4 * (n * (p * (SCALE - p))) + SCALE * (z * z))
}

/// The margin `z * sqrt(p * (1 - p) / n + z * z / (4 * n * n)) / (1 + z * z / n)`
/// in billionths, rounded down, for `p`, `n` and a `z` that is not
/// negative, all in billionths.
pub open spec fn margin_units(p: int, n: int, z: int) -> int {
    floor_root(radicand(p, n, z)) / (2 * total(n, z))
}

/// The lower end `centre - margin` of the Wilson score interval in
/// billionths, rounded down, for the magnitude `z` of a z-score that is
/// negative or not.
pub open spec fn lower_units(p: int, n: int, z: int, negative: bool) -> int {
    let a = SCALE * (2 * (n * p) + z * z);
    if negative {
        (a + floor_root(radicand(p, n, z))) / (2 * total(n, z))
    } else {
        (a - ceil_root(radicand(p, n, z))) / (2 * total(n, z))
    }
}

/// The upper end `centre + margin` of the Wilson score interval in
/// billionths, rounded up, for the magnitude `z` of a z-score that is
/// negative or not.
pub open spec fn upper_units(p: int, n: int, z: int, negative: bool) -> int {
    let a = SCALE * (2 * (n * p) + z * z);
    if negative {
        -((-(a - floor_root(radicand(p, n, z)))) / (2 * total(n, z)))
    } else {
        -((-(a + ceil_root(radicand(p, n, z)))) / (2 * total(n, z)))
    }
}

/// The centre of the Wilson score interval,
/// `(p + z * z / (2 * n)) / (1 + z * z / n)`: the exact value, rounded down
/// once.
pub open spec fn wilson_center(p: Decimal, n: Decimal, z: Decimal) -> Decimal {
    if estimable(p, n, z) {
        Decimal::of_units(
            center_units(2 * (n.units() * p.units()), n.units(), magnitude(z.units())),
        )
    } else {
        Decimal::Nan
    }
}

/// The margin of the Wilson score interval,
/// `z * sqrt(p * (1 - p) / n + z * z / (4 * n * n)) / (1 + z * z / n)`: the
/// exact value, rounded toward zero once.
pub open spec fn wilson_margin(p: Decimal, n: Decimal, z: Decimal) -> Decimal {
    if estimable(p, n, z) {
        Decimal::of_units(
            signed(z.units(), margin_units(p.units(), n.units(), magnitude(z.units()))),
        )
    } else {
        Decimal::Nan
    }
}

/// The Wilson score interval for a point estimate `p` seen in `n` trials, at
/// the z-score `z`.
pub open spec fn wilson_interval(p: Decimal, n: Decimal, z: Decimal) -> CenteredInterval {
    CenteredInterval { mean: wilson_center(p, n, z), margin: wilson_margin(p, n, z) }
}

/// The continuity correction `1 / (2 * n)` in billionths, rounded down.
pub open spec fn correction_units(n: int) -> int {
    (SCALE * SCALE) / (2 * n)
}

/// The estimate moved down by the correction, but not below zero.
pub open spec fn moved_down(p: int, n: int) -> int {
    if p - correction_units(n) < 0 {
        0
    } else {
        p - correction_units(n)
    }
}

/// The estimate moved up by the correction, but not above one.
pub open spec fn moved_up(p: int, n: int) -> int {
    if p + correction_units(n) > SCALE {
        SCALE as int
    } else {
        p + correction_units(n)
    }
}

/// The Wilson score interval with continuity correction: the lower end of
/// the Wilson score interval of the estimate moved down, rounded down once,
/// and the upper end of that of the estimate moved up, rounded up once.
pub open spec fn wilson_cc_interval(p: Decimal, n: Decimal, z: Decimal) -> BoundedInterval {
    if estimable(p, n, z) {
        BoundedInterval {
            lower: Decimal::of_units(
                lower_units(
                    moved_down(p.units(), n.units()),
                    n.units(),
                    magnitude(z.units()),
                    z.units() < 0,
                ),
            ),
            upper: Decimal::of_units(
                upper_units(
                    moved_up(p.units(), n.units()),
                    n.units(),
                    magnitude(z.units()),
                    z.units() < 0,
                ),
            ),
        }
    } else {
        BoundedInterval { lower: Decimal::Nan, upper: Decimal::Nan }
    }
}

/// What the Wilson score formulas share, for inputs in billionths: twice
/// the denominator `n + z * z`, the numerator of the centre, and the square
/// root of the radicand, rounded down and rounded up.
pub(crate) struct Terms {
    pub divisor: u128,
    pub numerator: u128,
    pub root_down: u128,
    pub root_up: u128,
}

/// The terms of the Wilson score formulas for an estimate `p`.
pub(crate) fn terms(p: u128, x: &Inputs) -> (t: Terms)
    requires
        p <= SCALE,
        0 < x.n <= i64::MAX,
        x.z <= 100_000_000_000_000,
    ensures
        t.divisor == 2 * total(x.n as int, x.z as int),
        t.numerator == SCALE * (2 * (x.n * p) + x.z * x.z),
        t.root_down == floor_root(radicand(p as int, x.n as int, x.z as int)),
        t.root_up == ceil_root(radicand(p as int, x.n as int, x.z as int)),
        0 < t.divisor <= 0x1_0000_0000_0000_0000_0000_0000,
        t.numerator <= 0x2000_0000_0000_0000_0000_0000_0000_0000,
        t.root_down <= t.root_up <= 0x4000_0000_0000_0000_0000_0000_0000_0000,
{
    let s: u128 = SCALE as u128;
    assert(x.z * x.z <= 100_000_000_000_000 * 100_000_000_000_000) by (nonlinear_arith)
        requires
            0 <= x.z <= 100_000_000_000_000,
    ;
    assert(0 <= p * (s - p) <= s * s) by (nonlinear_arith)
        requires
            0 <= p <= s,
    ;
    assert(0 <= x.n * p <= 0x8000_0000_0000_0000 * s) by (nonlinear_arith)
        requires
            0 <= x.n <= 0x8000_0000_0000_0000,
            0 <= p <= s,
    ;
    let zz: u128 = x.z * x.z;
    let b: u128 = p * (s - p);
    assert(0 <= x.n * b <= 0x8000_0000_0000_0000 * (s * s)) by (nonlinear_arith)
        requires
            0 <= x.n <= 0x8000_0000_0000_0000,
            0 <= b <= s * s,
    ;
    let divisor: u128 = 2 * (x.n * s + zz);
    let numerator: u128 = s * (2 * (x.n * p) + zz);
    let szz: u128 = s * zz;
    let e: u128 = 4 * (x.n * b) + szz;
    let root_down: u128 = root_of_product(szz, e);
    let square = Wide::product(root_down, root_down);
    let target = Wide::product(szz, e);
    let exact = square.high == target.high && square.low == target.low;
    let root_up: u128 = if exact {
        root_down
    } else {
        root_down + 1
    };
    Terms { divisor, numerator, root_down, root_up }
}

/// The centre of the Wilson score interval.
pub fn wilson_center_of(p: Decimal, n: Decimal, z: Decimal) -> (center: Decimal)
    ensures
        center == wilson_center(p, n, z),
{
    match inputs(p, n, z) {
        None => Decimal::Nan,
        Some(x) => {
            let t = terms(x.p, &x);
            assert(t.numerator as int / t.divisor as int <= t.numerator) by (nonlinear_arith)
                requires
                    t.numerator >= 0,
                    t.divisor > 0,
            ;
            narrow((t.numerator / t.divisor) as i128)
        },
    }
}

/// The margin of the Wilson score interval.
pub fn wilson_margin_of(p: Decimal, n: Decimal, z: Decimal) -> (margin: Decimal)
    ensures
        margin == wilson_margin(p, n, z),
{
    match inputs(p, n, z) {
        None => Decimal::Nan,
        Some(x) => {
            let t = terms(x.p, &x);
            assert(t.root_down as int / t.divisor as int <= t.root_down) by (nonlinear_arith)
                requires
                    t.root_down >= 0,
                    t.divisor > 0,
            ;
            let m: i128 = (t.root_down / t.divisor) as i128;
            if x.negative {
                narrow(-m)
            } else {
                narrow(m)
            }
        },
    }
}

/// The Wilson score intervals of a sample whose size is counted in `N`.
pub trait WilsonScore<N> {
    /// The Wilson score interval of the sample at the given z-score.
    spec fn wilson_score_value(&self, z_level: Decimal) -> CenteredInterval;

    /// The continuity-corrected Wilson score interval of the sample at the
    /// given z-score.
    spec fn wilson_score_with_cc_value(&self, z_level: Decimal) -> BoundedInterval;

    /// Wilson score interval.
    fn wilson_score(&self, z_level: Decimal) -> (interval: CenteredInterval)
        ensures
            interval == self.wilson_score_value(z_level),
    ;

    /// Wilson score interval with continuity correction.
    fn wilson_score_with_cc(&self, z_level: Decimal) -> (interval: BoundedInterval)
        ensures
            interval == self.wilson_score_with_cc_value(z_level),
    ;
}

impl<S, N> WilsonScore<N> for S where S: Sample<N>, N: Count {
    open spec fn wilson_score_value(&self, z_level: Decimal) -> CenteredInterval {
        wilson_interval(self.estimate(), self.trials().as_real(), z_level)
    }

    open spec fn wilson_score_with_cc_value(&self, z_level: Decimal) -> BoundedInterval {
        wilson_cc_interval(self.estimate(), self.trials().as_real(), z_level)
    }

    fn wilson_score(&self, z_level: Decimal) -> CenteredInterval {
        let sample_size = self.size().to_real();
        let p_hat = self.p_hat();
        CenteredInterval {
            mean: wilson_center_of(p_hat, sample_size, z_level),
            margin: wilson_margin_of(p_hat, sample_size, z_level),
        }
    }

    fn wilson_score_with_cc(&self, z_level: Decimal) -> BoundedInterval {
        let sample_size = self.size().to_real();
        let p_hat = self.p_hat();
        match inputs(p_hat, sample_size, z_level) {
            None => BoundedInterval { lower: Decimal::Nan, upper: Decimal::Nan },
            Some(x) => {
                let one: u128 = SCALE as u128;
                let p_hat_correction: u128 = (one * one) / (2 * x.n);
                let lower_p_hat: u128 = if x.p < p_hat_correction {
                    0
                } else {
                    x.p - p_hat_correction
                };
                let upper_p_hat: u128 = if x.p + p_hat_correction > one {
                    one
                } else {
                    x.p + p_hat_correction
                };
                let low = terms(lower_p_hat, &x);
                let high = terms(upper_p_hat, &x);
                if x.negative {
                    BoundedInterval {
                        lower: narrow(
                            floor_ratio(
                                low.numerator as i128 + low.root_down as i128,
                                low.divisor as i128,
                            ),
                        ),
                        upper: narrow(
                            ceil_ratio(
                                high.numerator as i128 - high.root_down as i128,
                                high.divisor as i128,
                            ),
                        ),
                    }
                } else {
                    BoundedInterval {
                        lower: narrow(
                            floor_ratio(
                                low.numerator as i128 - low.root_up as i128,
                                low.divisor as i128,
                            ),
                        ),
                        upper: narrow(
                            ceil_ratio(
                                high.numerator as i128 + high.root_up as i128,
                                high.divisor as i128,
                            ),
                        ),
                    }
                }
            },
        }
    }
}

impl CenteredInterval {
    /// The Wilson score interval of a sample at the given z-score.
    pub fn wilson_score_interval<N: Count, S: Sample<N>>(sample: &S, z_level: Decimal) -> (interval:
        CenteredInterval)
        ensures
            interval == wilson_interval(sample.estimate(), sample.trials().as_real(), z_level),
    {
        sample.wilson_score(z_level)
    }
}

} // verus!
