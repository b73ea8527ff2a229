//! The inputs for which an interval estimate exists.

use vstd::prelude::*;

use crate::decimal::{magnitude, Decimal, SCALE};
use crate::sample::within_unit_range;

verus! {

/// The largest magnitude of a z-score for which estimates are computed:
/// one hundred thousand.
pub open spec fn largest_z_score() -> Decimal {
    Decimal::Finite(100_000_000_000_000)
}

/// Whether a z-score is a number of a magnitude of at most one hundred
/// thousand.
pub open spec fn z_score_in_range(z: Decimal) -> bool {
    z.finite() && -largest_z_score().units() <= z.units() <= largest_z_score().units()
}

/// Whether an estimate exists: the point estimate lies between zero and
/// one, the number of trials is positive, and the z-score is in range.
pub open spec fn estimable(p: Decimal, n: Decimal, z: Decimal) -> bool {
    within_unit_range(p) && Decimal::nought().below(n) && z_score_in_range(z)
}

/// The sign of the z-score, given to a magnitude.
pub open spec fn signed(z: int, m: int) -> int {
    if z < 0 {
        -m
    } else {
        m
    }
}

/// The inputs of an estimate, in billionths.
pub(crate) struct Inputs {
    /// The point estimate.
    pub p: u128,
    /// The number of trials.
    pub n: u128,
    /// The magnitude of the z-score.
    pub z: u128,
    /// Whether the z-score is negative.
    pub negative: bool,
}

/// The inputs of an estimate in billionths, where the estimate exists.
pub(crate) fn inputs(p: Decimal, n: Decimal, z: Decimal) -> (found: Option<Inputs>)
    ensures
        found is Some <==> estimable(p, n, z),
        found matches Some(x) ==> x.p == p.units() && x.n == n.units() && x.z == magnitude(
            z.units(),
        ) && x.negative == (z.units() < 0),
{
    match (p, n, z) {
        (Decimal::Finite(p), Decimal::Finite(n), Decimal::Finite(z)) => {
            if 0 <= p && p <= SCALE && 0 < n && -100_000_000_000_000 <= z && z
                <= 100_000_000_000_000 {
                let negative = z < 0;
                let z: u128 = if negative {
                    (-z) as u128
                } else {
                    z as u128
                };
                Some(Inputs { p: p as u128, n: n as u128, z, negative })
            } else {
                None
            }
        },
        _ => None,
    }
}

/// The quotient `n / d`, rounded down.
pub(crate) fn floor_ratio(n: i128, d: i128) -> (q: i128)
    requires
        d > 0,
        n > i128::MIN,
    ensures
        q == n as int / d as int,
        n >= 0 ==> 0 <= q <= n,
        n < 0 ==> n <= q < 0,
{
    if n >= 0 {
        assert(0 <= n as int / d as int <= n) by (nonlinear_arith)
            requires
                n >= 0,
                d > 0,
        ;
        n / d
    } else {
        let m: i128 = -n;
        let q: i128 = m / d;
        let r: i128 = m % d;
        proof {
            vstd::arithmetic::div_mod::lemma_fundamental_div_mod(m as int, d as int);
            assert(0 <= q <= m) by (nonlinear_arith)
                requires
                    q == m as int / d as int,
                    m >= 0,
                    d > 0,
            ;
            assert(m == q * d + r) by (nonlinear_arith)
                requires
                    m == d * q + r,
            ;
        }
        if r == 0 {
            proof {
                assert(n == (-q) * d + 0) by (nonlinear_arith)
                    requires
                        -n == q * d + 0,
                ;
                vstd::arithmetic::div_mod::lemma_fundamental_div_mod_converse(
                    n as int,
                    d as int,
                    -q as int,
                    0,
                );
                assert(q > 0) by (nonlinear_arith)
                    requires
                        m == q * d,
                        m > 0,
                        d > 0,
                ;
            }
            -q
        } else {
            proof {
                assert(n == (-q - 1) * d + (d - r)) by (nonlinear_arith)
                    requires
                        -n == q * d + r,
                ;
                vstd::arithmetic::div_mod::lemma_fundamental_div_mod_converse(
                    n as int,
                    d as int,
                    -q - 1,
                    d - r,
                );
                assert(q + 1 <= m) by (nonlinear_arith)
                    requires
                        m == q * d + r,
                        0 < r < d,
                        q >= 0,
                ;
            }
            -q - 1
        }
    }
}

/// The quotient `n / d`, rounded up.
pub(crate) fn ceil_ratio(n: i128, d: i128) -> (q: i128)
    requires
        d > 0,
        n > i128::MIN,
    ensures
        q == -((-(n as int)) / d as int),
{
    -floor_ratio(-n, d)
}

} // verus!
