//! What holds of the interval estimates whatever the sample.

use vstd::prelude::*;

use crate::count::Count;
use crate::decimal::lemmas::lemma_quotient_sign;
use crate::decimal::root::{
    ceil_root, floor_root, lemma_ceil_root_least, lemma_floor_root_exists,
};
use crate::decimal::{magnitude, Decimal, SCALE};
use crate::interval::lemmas::{lemma_bounded_ordered, lemma_centered_ordered};
use crate::interval::Interval;
use crate::math::agresti_coull::{
    agresti_coull_interval, counted_agresti_coull_interval, counted_center,
};
use crate::math::range::{estimable, z_score_in_range};
use crate::math::wald::{wald_interval, wald_margin, wald_margin_units, Wald};
use crate::math::wilson_score::{
    center_units, lower_units, margin_units, moved_down, moved_up, radicand, total, upper_units,
    wilson_cc_interval, wilson_center, wilson_interval, wilson_margin, WilsonScore,
};
use crate::sample::Sample;

verus! {

/// The product `p * (SCALE - p)` of an estimate between zero and one with
/// its complement lies between zero and a quarter, in billionths of
/// billionths.
pub proof fn lemma_variance_bound(p: int)
    requires
        0 <= p <= SCALE,
    ensures
        0 <= p * (SCALE - p),
        4 * (p * (SCALE - p)) <= SCALE * SCALE,
{
    assert(0 <= p * (SCALE - p) && 4 * (p * (SCALE - p)) <= SCALE * SCALE) by (nonlinear_arith)
        requires
            0 <= p <= SCALE,
    ;
}

/// The margin of the Wald interval is the exact value rounded down: for an
/// estimate `p` between zero and one, a positive `n` and a `z` that is not
/// negative, all in billionths, it is the one `m` that is not negative
/// with `m * m * SCALE * n <= z * z * p * (SCALE - p) < (m + 1) * (m + 1) * SCALE * n`.
pub proof fn lemma_wald_margin_exact(p: int, n: int, z: int)
    requires
        0 <= p <= SCALE,
        0 < n,
        0 <= z,
    ensures
        0 <= wald_margin_units(p, n, z),
        wald_margin_units(p, n, z) * wald_margin_units(p, n, z) * (SCALE * n) <= (z * z) * (p * (
            SCALE - p)),
        (z * z) * (p * (SCALE - p)) < (wald_margin_units(p, n, z) + 1) * (wald_margin_units(
            p,
            n,
            z,
        ) + 1) * (SCALE * n),
        z == 0 ==> wald_margin_units(p, n, z) == 0,
{
    lemma_variance_bound(p);
    let a = (z * z) * (p * (SCALE - p));
    let d = SCALE * n;
    assert(0 <= a) by (nonlinear_arith)
        requires
            a == (z * z) * (p * (SCALE - p)),
            0 <= p * (SCALE - p),
    ;
    assert(0 < d) by (nonlinear_arith)
        requires
            d == SCALE * n,
            0 < n,
    ;
    let q = a / d;
    assert(0 <= q && q * d <= a < (q + 1) * d) by (nonlinear_arith)
        requires
            q == a / d,
            0 <= a,
            0 < d,
    ;
    lemma_floor_root_exists(q);
    let m = floor_root(q);
    assert(m * m * d <= a) by (nonlinear_arith)
        requires
            m * m <= q,
            q * d <= a,
            0 < d,
    ;
    assert(a < (m + 1) * (m + 1) * d) by (nonlinear_arith)
        requires
            q + 1 <= (m + 1) * (m + 1),
            a < (q + 1) * d,
            0 < d,
    ;
    if z == 0 {
        assert(a == 0) by (nonlinear_arith)
            requires
                a == (z * z) * (p * (SCALE - p)),
                z == 0,
        ;
        assert(m == 0) by (nonlinear_arith)
            requires
                0 <= m,
                m * m <= q,
                q == 0,
        ;
    }
}

/// The Wald interval of an estimate between zero and one, seen in a
/// positive number of trials at a z-score in range, is made of numbers;
/// its margin has the sign of the z-score.
pub proof fn lemma_wald_finite(p: Decimal, n: Decimal, z: Decimal)
    requires
        estimable(p, n, z),
    ensures
        wald_interval(p, n, z).mean == p,
        wald_margin(p, n, z).finite(),
        wald_interval(p, n, z).low().finite(),
        wald_interval(p, n, z).high().finite(),
        Decimal::nought().at_most(z) ==> Decimal::nought().at_most(wald_margin(p, n, z)),
        -0x4000_0000_0000_0000 <= wald_margin(p, n, z).units() <= 0x4000_0000_0000_0000,
{
    let zm = magnitude(z.units());
    lemma_wald_margin_exact(p.units(), n.units(), zm);
    lemma_variance_bound(p.units());
    let m = wald_margin_units(p.units(), n.units(), zm);
    let a = (zm * zm) * (p.units() * (SCALE - p.units()));
    let d = SCALE * n.units();
    assert(a <= 10_000_000_000_000_000_000_000_000_000 * (SCALE * SCALE)) by (nonlinear_arith)
        requires
            a == (zm * zm) * (p.units() * (SCALE - p.units())),
            0 <= zm <= 100_000_000_000_000,
            0 <= p.units() * (SCALE - p.units()),
            4 * (p.units() * (SCALE - p.units())) <= SCALE * SCALE,
    ;
    assert(m < 0x4000_0000_0000_0000) by (nonlinear_arith)
        requires
            0 <= m,
            m * m * d <= a,
            d >= SCALE,
            a <= 10_000_000_000_000_000_000_000_000_000 * (SCALE * SCALE),
            SCALE == 1_000_000_000,
    ;
}

/// At a z-score of zero the Wald interval shrinks to the point estimate,
/// for an estimate between zero and one seen in a positive number of
/// trials.
pub proof fn lemma_wald_zero(p: Decimal, n: Decimal)
    requires
        estimable(p, n, Decimal::nought()),
    ensures
        wald_interval(p, n, Decimal::nought()).mean == p,
        wald_interval(p, n, Decimal::nought()).margin == Decimal::nought(),
{
    lemma_wald_margin_exact(p.units(), n.units(), 0);
}

/// At a z-score that is not negative, a Wald interval has its mean between
/// its bounds, for an estimate between zero and one seen in a positive
/// number of trials.
pub proof fn lemma_wald_ordered(p: Decimal, n: Decimal, z: Decimal)
    requires
        estimable(p, n, z),
        Decimal::nought().at_most(z),
    ensures
        wald_interval(p, n, z).low().at_most(wald_interval(p, n, z).center()),
        wald_interval(p, n, z).center().at_most(wald_interval(p, n, z).high()),
{
    lemma_wald_finite(p, n, z);
    lemma_centered_ordered(wald_interval(p, n, z));
}

/// The centre and the margin of the Wilson score interval are the exact
/// values rounded down, and lie between zero and one: for an estimate `p`
/// between zero and one, a positive `n` and a `z` that is not negative,
/// all in billionths, with `d = 2 * (n * SCALE + z * z)`, the centre `c`
/// has `c * d <= SCALE * (2 * n * p + z * z) < (c + 1) * d`, and the margin
/// `m` has `(m * d) * (m * d) <= radicand < ((m + 1) * d) * ((m + 1) * d)`.
pub proof fn lemma_wilson_exact(p: int, n: int, z: int)
    requires
        0 <= p <= SCALE,
        0 < n,
        0 <= z,
    ensures
        0 < total(n, z),
        0 <= radicand(p, n, z),
        0 <= center_units(2 * (n * p), n, z) <= SCALE,
        center_units(2 * (n * p), n, z) * (2 * total(n, z)) <= SCALE * (2 * (n * p) + z * z),
        SCALE * (2 * (n * p) + z * z) < (center_units(2 * (n * p), n, z) + 1) * (2 * total(n, z)),
        0 <= margin_units(p, n, z) <= SCALE,
        (margin_units(p, n, z) * (2 * total(n, z))) * (margin_units(p, n, z) * (2 * total(n, z)))
            <= radicand(p, n, z),
        radicand(p, n, z) < ((margin_units(p, n, z) + 1) * (2 * total(n, z))) * ((margin_units(
            p,
            n,
            z,
        ) + 1) * (2 * total(n, z))),
        0 <= floor_root(radicand(p, n, z)) <= SCALE * (2 * total(n, z)),
        z == 0 ==> margin_units(p, n, z) == 0,
{
    lemma_variance_bound(p);
    let s = SCALE as int;
    let w = z * z;
    let u = n * p;
    let b = p * (s - p);
    let nb = n * b;
    let t = total(n, z);
    let d = 2 * t;
    let a = s * (2 * u + w);
    let x = radicand(p, n, z);
    assert(0 <= w) by (nonlinear_arith)
        requires
            w == z * z,
    ;
    assert(0 <= u <= n * s) by (nonlinear_arith)
        requires
            u == n * p,
            0 <= p <= s,
            0 < n,
    ;
    assert(0 <= nb && 4 * nb <= n * (s * s)) by (nonlinear_arith)
        requires
            nb == n * b,
            0 <= b,
            4 * b <= s * s,
            0 < n,
    ;
    assert(n * (s * s) == (n * s) * s) by (nonlinear_arith);
    assert(0 <= a <= s * d) by (nonlinear_arith)
        requires
            a == s * (2 * u + w),
            d == 2 * (n * s + w),
            0 <= u <= n * s,
            0 <= w,
            s > 0,
    ;
    let c = a / d;
    assert(0 <= c <= s && c * d <= a < (c + 1) * d) by (nonlinear_arith)
        requires
            c == a / d,
            0 <= a <= s * d,
            0 < d,
    ;
    let e = 4 * nb + s * w;
    assert(0 <= e <= s * t) by (nonlinear_arith)
        requires
            e == 4 * nb + s * w,
            0 <= nb,
            4 * nb <= (n * s) * s,
            t == n * s + w,
            0 <= w,
            s > 0,
    ;
    assert(0 <= x <= (s * d) * (s * d)) by (nonlinear_arith)
        requires
            x == (s * w) * e,
            0 <= e <= s * t,
            0 <= w <= t,
            d == 2 * t,
            s > 0,
    ;
    lemma_floor_root_exists(x);
    let r = floor_root(x);
    assert(r <= s * d) by (nonlinear_arith)
        requires
            0 <= r,
            r * r <= x,
            x <= (s * d) * (s * d),
            0 <= s * d,
    ;
    let m = r / d;
    assert(0 <= m <= s && m * d <= r < (m + 1) * d) by (nonlinear_arith)
        requires
            m == r / d,
            0 <= r <= s * d,
            0 < d,
    ;
    assert((m * d) * (m * d) <= x) by (nonlinear_arith)
        requires
            0 <= m * d <= r,
            r * r <= x,
    ;
    assert(x < ((m + 1) * d) * ((m + 1) * d)) by (nonlinear_arith)
        requires
            0 <= r + 1 <= (m + 1) * d,
            x < (r + 1) * (r + 1),
    ;
    if z == 0 {
        assert(x == 0) by (nonlinear_arith)
            requires
                x == (s * w) * e,
                w == z * z,
                z == 0,
        ;
        assert(r == 0) by (nonlinear_arith)
            requires
                0 <= r,
                r * r <= x,
                x == 0,
        ;
    }
}

/// The Wilson score interval of an estimate between zero and one, seen in
/// a positive number of trials at a z-score in range, is made of numbers:
/// its centre lies between zero and one, and its margin is of a magnitude
/// of at most one and has the sign of the z-score.
pub proof fn lemma_wilson_finite(p: Decimal, n: Decimal, z: Decimal)
    requires
        estimable(p, n, z),
    ensures
        Decimal::nought().at_most(wilson_center(p, n, z)),
        wilson_center(p, n, z).at_most(Decimal::unit()),
        wilson_margin(p, n, z).finite(),
        -SCALE <= wilson_margin(p, n, z).units() <= SCALE,
        Decimal::nought().at_most(z) ==> Decimal::nought().at_most(wilson_margin(p, n, z)),
        wilson_interval(p, n, z).low().finite(),
        wilson_interval(p, n, z).high().finite(),
{
    lemma_wilson_exact(p.units(), n.units(), magnitude(z.units()));
}

/// At a z-score that is not negative, a Wilson score interval has its mean
/// between its bounds, for an estimate between zero and one seen in a
/// positive number of trials.
pub proof fn lemma_wilson_ordered(p: Decimal, n: Decimal, z: Decimal)
    requires
        estimable(p, n, z),
        Decimal::nought().at_most(z),
    ensures
        wilson_interval(p, n, z).low().at_most(wilson_interval(p, n, z).center()),
        wilson_interval(p, n, z).center().at_most(wilson_interval(p, n, z).high()),
{
    lemma_wilson_finite(p, n, z);
    lemma_centered_ordered(wilson_interval(p, n, z));
}

/// At a z-score of zero the Wilson score interval shrinks to the point
/// estimate.
pub proof fn lemma_wilson_zero(p: Decimal, n: Decimal)
    requires
        estimable(p, n, Decimal::nought()),
    ensures
        wilson_interval(p, n, Decimal::nought()).mean == p,
        wilson_interval(p, n, Decimal::nought()).margin == Decimal::nought(),
{
    let u = n.units() * p.units();
    let d = 2 * total(n.units(), 0);
    lemma_wilson_exact(p.units(), n.units(), 0);
    assert(SCALE * (2 * u + 0 * 0) == p.units() * d) by (nonlinear_arith)
        requires
            u == n.units() * p.units(),
            d == 2 * (n.units() * SCALE + 0 * 0),
    ;
    let c = center_units(2 * u, n.units(), 0);
    assert(c == p.units()) by (nonlinear_arith)
        requires
            c * d <= p.units() * d,
            p.units() * d < (c + 1) * d,
            0 < d,
    ;
}

/// At a z-score that is not negative, an Agresti-Coull interval has its
/// mean between its bounds, for an estimate between zero and one seen in a
/// positive number of trials, where the number of trials plus the squared
/// z-score can be held.
pub proof fn lemma_agresti_coull_ordered(p: Decimal, n: Decimal, z: Decimal)
    requires
        estimable(p, n, z),
        Decimal::nought().at_most(z),
        n.plus(z.times(z)).finite(),
    ensures
        Decimal::nought().at_most(agresti_coull_interval(p, n, z).mean),
        agresti_coull_interval(p, n, z).mean.at_most(Decimal::unit()),
        agresti_coull_interval(p, n, z).low().at_most(agresti_coull_interval(p, n, z).center()),
        agresti_coull_interval(p, n, z).center().at_most(agresti_coull_interval(p, n, z).high()),
{
    lemma_wilson_finite(p, n, z);
    lemma_corrected_size_positive(n, z);
    lemma_wald_ordered(wilson_center(p, n, z), n.plus(z.times(z)), z);
}

/// The number of trials plus the squared z-score is positive where the
/// number of trials is, provided that it can be held.
pub proof fn lemma_corrected_size_positive(n: Decimal, z: Decimal)
    requires
        Decimal::nought().below(n),
        n.plus(z.times(z)).finite(),
    ensures
        Decimal::nought().below(n.plus(z.times(z))),
{
    assert(z.units() * z.units() >= 0) by (nonlinear_arith);
    lemma_quotient_sign(z.units() * z.units(), SCALE as int);
}

/// The numerator of the centre is at least the root of the radicand:
/// the centre of the Wilson score interval is at least its margin.
pub proof fn lemma_center_dominates(p: int, n: int, z: int)
    requires
        0 <= p <= SCALE,
        0 < n,
        0 <= z,
    ensures
        0 <= floor_root(radicand(p, n, z)) <= ceil_root(radicand(p, n, z)) <= SCALE * (2 * (n * p)
            + z * z),
{
    lemma_wilson_exact(p, n, z);
    let s = SCALE as int;
    let w = z * z;
    let u = n * p;
    let nb = n * (p * (s - p));
    let q = n * (p * p);
    let a = s * (2 * u + w);
    let x = radicand(p, n, z);
    assert(0 <= w) by (nonlinear_arith)
        requires
            w == z * z,
    ;
    assert(0 <= q && 0 <= u && s * u - nb == q) by (nonlinear_arith)
        requires
            q == n * (p * p),
            u == n * p,
            nb == n * (p * (s - p)),
            0 < n,
            0 <= p,
    ;
    let k = 2 * u + w;
    let kk = k * k;
    let wk = w * (4 * u + w);
    let ss = s * s;
    let swq = s * (w * q);
    assert(kk - wk == 4 * (u * u)) by (nonlinear_arith)
        requires
            kk == (2 * u + w) * (2 * u + w),
            wk == w * (4 * u + w),
    ;
    assert(a * a == ss * kk) by (nonlinear_arith)
        requires
            a == s * k,
            kk == k * k,
            ss == s * s,
    ;
    assert(x == ss * wk - 4 * swq) by (nonlinear_arith)
        requires
            x == (s * w) * (4 * (s * u - q) + s * w),
            wk == w * (4 * u + w),
            ss == s * s,
            swq == s * (w * q),
    ;
    assert(ss * kk - ss * wk == ss * (4 * (u * u))) by (nonlinear_arith)
        requires
            kk - wk == 4 * (u * u),
    ;
    assert(0 <= ss * (4 * (u * u)) && 0 <= swq) by (nonlinear_arith)
        requires
            ss == s * s,
            swq == s * (w * q),
            0 <= w,
            0 <= q,
            0 < s,
    ;
    assert(x <= a * a);
    lemma_floor_root_exists(x);
    let r = floor_root(x);
    assert(0 <= a) by (nonlinear_arith)
        requires
            a == s * (2 * u + w),
            0 <= u,
            0 <= w,
            0 < s,
    ;
    assert(r <= a) by (nonlinear_arith)
        requires
            0 <= r,
            0 <= a,
            r * r <= x,
            x <= a * a,
    ;
    if r * r != x {
        assert(r + 1 <= a) by (nonlinear_arith)
            requires
                0 <= r,
                0 <= a,
                r * r < x,
                x <= a * a,
        ;
    }
}

/// The numerator of the centre and the root of the radicand together do
/// not exceed the denominator: the centre of the Wilson score interval
/// plus its margin is at most one.
pub proof fn lemma_center_leaves_room(p: int, n: int, z: int)
    requires
        0 <= p <= SCALE,
        0 < n,
        0 <= z,
    ensures
        SCALE * (2 * (n * p) + z * z) + ceil_root(radicand(p, n, z)) <= SCALE * (2 * total(n, z)),
{
    let s = SCALE as int;
    let o = s - p;
    lemma_center_dominates(o, n, z);
    assert(o * (s - o) == p * (s - p)) by (nonlinear_arith)
        requires
            o == s - p,
    ;
    assert(radicand(o, n, z) == radicand(p, n, z));
    assert(s * (2 * (n * o) + z * z) + s * (2 * (n * p) + z * z) == s * (2 * (n * s + z * z)))
        by (nonlinear_arith)
        requires
            o == s - p,
    ;
}

/// The Wilson score interval stays within the unit range: at a z-score
/// that is not negative its lower bound is at least zero and its upper
/// bound at most one, for an estimate between zero and one seen in a
/// positive number of trials.
pub proof fn lemma_wilson_within_unit_range(p: Decimal, n: Decimal, z: Decimal)
    requires
        estimable(p, n, z),
        Decimal::nought().at_most(z),
    ensures
        Decimal::nought().at_most(wilson_interval(p, n, z).low()),
        wilson_interval(p, n, z).high().at_most(Decimal::unit()),
{
    let zu = z.units();
    lemma_wilson_exact(p.units(), n.units(), zu);
    lemma_center_dominates(p.units(), n.units(), zu);
    lemma_center_leaves_room(p.units(), n.units(), zu);
    let d = 2 * total(n.units(), zu);
    let a = SCALE * (2 * (n.units() * p.units()) + zu * zu);
    let r = floor_root(radicand(p.units(), n.units(), zu));
    let c = a / d;
    let m = r / d;
    assert(m <= c) by (nonlinear_arith)
        requires
            m == r / d,
            c == a / d,
            0 <= r <= a,
            0 < d,
    ;
    assert(c + m <= SCALE) by (nonlinear_arith)
        requires
            m == r / d,
            c == a / d,
            0 <= r,
            0 <= a,
            a + r <= SCALE * d,
            0 < d,
    ;
}

/// The estimate moved down does not exceed the estimate, which does not
/// exceed the estimate moved up, and both lie between zero and one.
pub proof fn lemma_moved_estimates(p: int, n: int)
    requires
        0 <= p <= SCALE,
        0 < n,
    ensures
        0 <= moved_down(p, n) <= p <= moved_up(p, n) <= SCALE,
{
    assert(0 <= (SCALE * SCALE) / (2 * n)) by (nonlinear_arith)
        requires
            0 < n,
    ;
}

/// The Wilson score interval with continuity correction is made of
/// numbers, and at a z-score that is not negative its bounds and its mean
/// are in order and within the unit range: zero, the lower bound, the
/// mean, the upper bound, one.
pub proof fn lemma_wilson_cc_ordered(p: Decimal, n: Decimal, z: Decimal)
    requires
        estimable(p, n, z),
        Decimal::nought().at_most(z),
    ensures
        Decimal::nought().at_most(wilson_cc_interval(p, n, z).low()),
        wilson_cc_interval(p, n, z).low().at_most(wilson_cc_interval(p, n, z).center()),
        wilson_cc_interval(p, n, z).center().at_most(wilson_cc_interval(p, n, z).high()),
        wilson_cc_interval(p, n, z).high().at_most(Decimal::unit()),
{
    let nu = n.units();
    let zu = z.units();
    let lp = moved_down(p.units(), nu);
    let up = moved_up(p.units(), nu);
    lemma_moved_estimates(p.units(), nu);
    lemma_wilson_exact(lp, nu, zu);
    lemma_wilson_exact(up, nu, zu);
    lemma_center_dominates(lp, nu, zu);
    lemma_center_leaves_room(up, nu, zu);
    let d = 2 * total(nu, zu);
    let al = SCALE * (2 * (nu * lp) + zu * zu);
    let au = SCALE * (2 * (nu * up) + zu * zu);
    let rl = ceil_root(radicand(lp, nu, zu));
    let ru = ceil_root(radicand(up, nu, zu));
    assert(al <= au) by (nonlinear_arith)
        requires
            al == SCALE * (2 * (nu * lp) + zu * zu),
            au == SCALE * (2 * (nu * up) + zu * zu),
            lp <= up,
            0 < nu,
    ;
    let low = (al - rl) / d;
    let high = -((-(au + ru)) / d);
    assert(0 <= low && low * d <= al - rl) by (nonlinear_arith)
        requires
            low == (al - rl) / d,
            0 <= al - rl,
            0 < d,
    ;
    assert(au + ru <= high * d && high <= SCALE) by (nonlinear_arith)
        requires
            high == -((-(au + ru)) / d),
            au + ru <= SCALE * d,
            0 < d,
    ;
    assert(low <= high) by (nonlinear_arith)
        requires
            low * d <= al - rl,
            au + ru <= high * d,
            al <= au,
            0 <= rl,
            0 <= ru,
            0 < d,
    ;
    lemma_bounded_ordered(wilson_cc_interval(p, n, z));
}

/// The centre of the Wilson score interval lies between the estimate and
/// one half.
pub proof fn lemma_wilson_center_between(p: Decimal, n: Decimal, z: Decimal)
    requires
        estimable(p, n, z),
    ensures
        2 * p.units() <= SCALE ==> p.at_most(wilson_center(p, n, z)) && 2 * wilson_center(
            p,
            n,
            z,
        ).units() <= SCALE,
        2 * p.units() >= SCALE ==> wilson_center(p, n, z).at_most(p) && 2 * wilson_center(
            p,
            n,
            z,
        ).units() >= SCALE,
{
    let zu = magnitude(z.units());
    let pu = p.units();
    let nu = n.units();
    lemma_wilson_exact(pu, nu, zu);
    let s = SCALE as int;
    let w = zu * zu;
    let u = nu * pu;
    let d = 2 * (nu * s + w);
    let a = s * (2 * u + w);
    let c = center_units(2 * u, nu, zu);
    assert(0 <= w) by (nonlinear_arith)
        requires
            w == zu * zu,
    ;
    assert(a - pu * d == (s - 2 * pu) * w && 2 * a - s * d == 2 * s * (nu * (2 * pu - s)))
        by (nonlinear_arith)
        requires
            a == s * (2 * u + w),
            d == 2 * (nu * s + w),
            u == nu * pu,
    ;
    if 2 * pu <= s {
        assert(pu * d <= a && 2 * a <= s * d) by (nonlinear_arith)
            requires
                a - pu * d == (s - 2 * pu) * w,
                2 * a - s * d == 2 * s * (nu * (2 * pu - s)),
                2 * pu <= s,
                0 <= w,
                0 < nu,
                0 < s,
        ;
        assert(pu <= c && 2 * c <= s) by (nonlinear_arith)
            requires
                c * d <= a,
                a < (c + 1) * d,
                pu * d <= a,
                2 * a <= s * d,
                0 < d,
        ;
    }
    if 2 * pu >= s {
        assert(a <= pu * d && s * d <= 2 * a) by (nonlinear_arith)
            requires
                a - pu * d == (s - 2 * pu) * w,
                2 * a - s * d == 2 * s * (nu * (2 * pu - s)),
                2 * pu >= s,
                0 <= w,
                0 < nu,
                0 < s,
        ;
        assert(c <= pu && s <= 2 * c) by (nonlinear_arith)
            requires
                c * d <= a,
                a < (c + 1) * d,
                a <= pu * d,
                s * d <= 2 * a,
                s == 1_000_000_000,
                0 < d,
        ;
    }
}

/// The Wilson score interval with continuity correction mirrors with the
/// estimate: the lower bound for an estimate is one minus the upper bound
/// for one minus the estimate, and the other way round.
pub proof fn lemma_wilson_cc_mirrors(p: Decimal, n: Decimal, z: Decimal)
    requires
        estimable(p, n, z),
    ensures
        estimable(Decimal::unit().minus(p), n, z),
        wilson_cc_interval(p, n, z).lower == Decimal::unit().minus(
            wilson_cc_interval(Decimal::unit().minus(p), n, z).upper,
        ),
        wilson_cc_interval(p, n, z).upper == Decimal::unit().minus(
            wilson_cc_interval(Decimal::unit().minus(p), n, z).lower,
        ),
{
    let s = SCALE as int;
    let pu = p.units();
    let nu = n.units();
    let zu = magnitude(z.units());
    let negative = z.units() < 0;
    lemma_moved_estimates(pu, nu);
    lemma_moved_estimates(s - pu, nu);
    let lp = moved_down(pu, nu);
    let up = moved_up(pu, nu);
    assert(moved_up(s - pu, nu) == s - lp);
    assert(moved_down(s - pu, nu) == s - up);
    lemma_mirror(lp, nu, zu, negative);
    lemma_mirror(s - up, nu, zu, negative);
    lemma_wilson_exact(lp, nu, zu);
    lemma_wilson_exact(up, nu, zu);
    lemma_center_dominates(lp, nu, zu);
    lemma_center_leaves_room(lp, nu, zu);
    lemma_center_dominates(up, nu, zu);
    lemma_center_leaves_room(up, nu, zu);
    lemma_bound_magnitudes(lp, nu, zu, negative);
    lemma_bound_magnitudes(up, nu, zu, negative);
}

/// The lower and the upper end of the Wilson score interval lie between
/// minus one and two.
pub proof fn lemma_bound_magnitudes(p: int, n: int, z: int, negative: bool)
    requires
        0 <= p <= SCALE,
        0 < n,
        0 <= z,
    ensures
        -SCALE <= lower_units(p, n, z, negative) <= 2 * SCALE,
        -SCALE <= upper_units(p, n, z, negative) <= 2 * SCALE,
{
    lemma_wilson_exact(p, n, z);
    lemma_center_dominates(p, n, z);
    lemma_center_leaves_room(p, n, z);
    let s = SCALE as int;
    let d = 2 * total(n, z);
    let a = s * (2 * (n * p) + z * z);
    let f = floor_root(radicand(p, n, z));
    let c = ceil_root(radicand(p, n, z));
    assert(0 <= (a - c) / d <= s && 0 <= (a + f) / d <= 2 * s) by (nonlinear_arith)
        requires
            0 <= a - c <= s * d,
            0 <= a + f <= 2 * (s * d),
            0 < d,
            0 < s,
    ;
    assert(-(2 * s) <= (-(a + c)) / d <= 0 && -s <= (-(a - f)) / d <= 0) by (nonlinear_arith)
        requires
            0 <= a + c <= 2 * (s * d),
            0 <= a - f <= s * d,
            0 < d,
            0 < s,
    ;
}

/// The lower end of the Wilson score interval for an estimate is one minus
/// the upper end for one minus the estimate.
pub proof fn lemma_mirror(p: int, n: int, z: int, negative: bool)
    requires
        0 <= p <= SCALE,
        0 < n,
        0 <= z,
    ensures
        lower_units(p, n, z, negative) == SCALE - upper_units(SCALE - p, n, z, negative),
{
    let s = SCALE as int;
    let o = s - p;
    lemma_wilson_exact(p, n, z);
    let d = 2 * total(n, z);
    let a = s * (2 * (n * p) + z * z);
    let b = s * (2 * (n * o) + z * z);
    assert(o * (s - o) == p * (s - p)) by (nonlinear_arith)
        requires
            o == s - p,
    ;
    assert(radicand(o, n, z) == radicand(p, n, z));
    assert(a + b == s * d) by (nonlinear_arith)
        requires
            a == s * (2 * (n * p) + z * z),
            b == s * (2 * (n * o) + z * z),
            d == 2 * (n * s + z * z),
            o == s - p,
    ;
    let r = if negative {
        -floor_root(radicand(p, n, z))
    } else {
        ceil_root(radicand(p, n, z))
    };
    // lower = (a - r) / d, upper of the mirror = -((-(b + r)) / d) = -((a - r - s * d) / d)
    let x = a - r;
    assert((x - s * d) / d == x / d - s) by {
        vstd::arithmetic::div_mod::lemma_fundamental_div_mod(x, d);
        assert(x - s * d == (x / d - s) * d + x % d) by (nonlinear_arith)
            requires
                x == d * (x / d) + x % d,
        ;
        vstd::arithmetic::div_mod::lemma_mod_bound(x, d);
        vstd::arithmetic::div_mod::lemma_fundamental_div_mod_converse(
            x - s * d,
            d,
            x / d - s,
            x % d,
        );
    }
    assert(-(b + r) == x - s * d);
}

/// The centre that the Agresti-Coull interval takes from the counts lies
/// between zero and one.
pub proof fn lemma_counted_center_in_unit_range(k: Decimal, n: Decimal, z: Decimal)
    requires
        Decimal::nought().at_most(k),
        k.at_most(n),
        Decimal::nought().below(n),
        z_score_in_range(z),
    ensures
        Decimal::nought().at_most(counted_center(k, n, z)),
        counted_center(k, n, z).at_most(Decimal::unit()),
{
    let s = SCALE as int;
    let zu = magnitude(z.units());
    let w = zu * zu;
    let d = 2 * (n.units() * s + w);
    let a = s * (2 * (k.units() * s) + w);
    assert(0 <= w) by (nonlinear_arith)
        requires
            w == zu * zu,
    ;
    assert(0 <= a <= s * d && 0 < d) by (nonlinear_arith)
        requires
            a == s * (2 * (k.units() * s) + w),
            d == 2 * (n.units() * s + w),
            0 <= k.units() <= n.units(),
            0 < n.units(),
            0 <= w,
            0 < s,
    ;
    assert(0 <= a / d <= s) by (nonlinear_arith)
        requires
            0 <= a <= s * d,
            0 < d,
    ;
}

/// At a z-score that is not negative, the Agresti-Coull interval of a
/// number of successes has its mean between its bounds, and its mean lies
/// between zero and one, where the number of trials plus the squared
/// z-score can be held.
pub proof fn lemma_counted_agresti_coull_ordered(k: Decimal, n: Decimal, z: Decimal)
    requires
        Decimal::nought().at_most(k),
        k.at_most(n),
        Decimal::nought().below(n),
        z_score_in_range(z),
        Decimal::nought().at_most(z),
        n.plus(z.times(z)).finite(),
    ensures
        Decimal::nought().at_most(counted_agresti_coull_interval(k, n, z).mean),
        counted_agresti_coull_interval(k, n, z).mean.at_most(Decimal::unit()),
        counted_agresti_coull_interval(k, n, z).low().at_most(
            counted_agresti_coull_interval(k, n, z).center(),
        ),
        counted_agresti_coull_interval(k, n, z).center().at_most(
            counted_agresti_coull_interval(k, n, z).high(),
        ),
{
    lemma_counted_center_in_unit_range(k, n, z);
    lemma_corrected_size_positive(n, z);
    lemma_wald_ordered(counted_center(k, n, z), n.plus(z.times(z)), z);
}

/// Products of factors that are not negative keep the order of the
/// factors.
proof fn lemma_product_order(u1: int, u2: int, v1: int, v2: int)
    by (nonlinear_arith)
    requires
        0 <= u1 <= u2,
        0 <= v1 <= v2,
    ensures
        u1 * v1 <= u2 * v2,
{
}

/// A product of two multiples of `t` is the product of the factors times
/// the square of `t`.
proof fn lemma_regroup(a: int, b: int, t: int)
    by (nonlinear_arith)
    ensures
        (a * t) * (b * t) == (a * b) * (t * t),
{
}

/// The square of `m * d1`, times the square of `d2`, is the square of
/// `m * (d1 * d2)`.
proof fn lemma_square_regroup(m: int, d1: int, d2: int)
    by (nonlinear_arith)
    ensures
        ((m * d1) * (m * d1)) * (d2 * d2) == (m * (d1 * d2)) * (m * (d1 * d2)),
        ((m * d2) * (m * d2)) * (d1 * d1) == (m * (d1 * d2)) * (m * (d1 * d2)),
{
}

/// A larger z-score never narrows the Wilson score interval: the margin
/// does not shrink as the z-score grows.
pub proof fn lemma_wilson_margin_monotonic(p: int, n: int, z1: int, z2: int)
    requires
        0 <= p <= SCALE,
        0 < n,
        0 <= z1 <= z2,
    ensures
        margin_units(p, n, z1) <= margin_units(p, n, z2),
{
    lemma_variance_bound(p);
    lemma_wilson_exact(p, n, z1);
    lemma_wilson_exact(p, n, z2);
    let s = SCALE as int;
    let big = n * s;
    let c = 4 * (n * (p * (s - p)));
    let w1 = z1 * z1;
    let w2 = z2 * z2;
    assert(0 <= w1 <= w2) by (nonlinear_arith)
        requires
            w1 == z1 * z1,
            w2 == z2 * z2,
            0 <= z1 <= z2,
    ;
    assert(0 <= c <= s * big && 0 < big) by (nonlinear_arith)
        requires
            c == 4 * (n * (p * (s - p))),
            big == n * s,
            0 <= p * (s - p),
            4 * (p * (s - p)) <= s * s,
            0 < n,
            0 < s,
    ;
    let d1 = 2 * (big + w1);
    let d2 = 2 * (big + w2);
    let a1 = s * w1;
    let a2 = s * w2;
    let b1 = c + s * w1;
    let b2 = c + s * w2;
    assert(0 <= a1 * d2 <= a2 * d1) by (nonlinear_arith)
        requires
            a1 == s * w1,
            a2 == s * w2,
            d1 == 2 * (big + w1),
            d2 == 2 * (big + w2),
            0 <= w1 <= w2,
            0 < big,
            0 < s,
    ;
    assert(0 <= b1 * d2 <= b2 * d1) by (nonlinear_arith)
        requires
            b1 == c + s * w1,
            b2 == c + s * w2,
            d1 == 2 * (big + w1),
            d2 == 2 * (big + w2),
            0 <= w1 <= w2,
            0 <= c <= s * big,
            0 < big,
            0 < s,
    ;
    lemma_product_order(a1 * d2, a2 * d1, b1 * d2, b2 * d1);
    lemma_regroup(a1, b1, d2);
    lemma_regroup(a2, b2, d1);
    let x1 = radicand(p, n, z1);
    let x2 = radicand(p, n, z2);
    assert(x1 == a1 * b1 && x2 == a2 * b2);
    assert(x1 * (d2 * d2) <= x2 * (d1 * d1));
    let m1 = margin_units(p, n, z1);
    let m2 = margin_units(p, n, z2);
    let g = d1 * d2;
    let e1 = m1 * d1;
    let e2 = (m2 + 1) * d2;
    assert(0 < g && 0 < d1 * d1 && 0 < d2 * d2) by (nonlinear_arith)
        requires
            g == d1 * d2,
            0 < d1,
            0 < d2,
    ;
    lemma_product_order(e1 * e1, x1, d2 * d2, d2 * d2);
    assert((e1 * e1) * (d2 * d2) <= x2 * (d1 * d1));
    assert(x2 * (d1 * d1) < (e2 * e2) * (d1 * d1)) by (nonlinear_arith)
        requires
            x2 < e2 * e2,
            0 < d1 * d1,
    ;
    lemma_square_regroup(m1, d1, d2);
    lemma_square_regroup(m2 + 1, d1, d2);
    assert(m1 < m2 + 1) by (nonlinear_arith)
        requires
            (m1 * g) * (m1 * g) < ((m2 + 1) * g) * ((m2 + 1) * g),
            0 <= m1,
            0 <= m2,
            0 < g,
    ;
}

/// A larger z-score never narrows the Wilson score interval.
pub proof fn lemma_wilson_widens_with_z(p: Decimal, n: Decimal, z1: Decimal, z2: Decimal)
    requires
        estimable(p, n, z1),
        estimable(p, n, z2),
        Decimal::nought().at_most(z1),
        z1.at_most(z2),
    ensures
        wilson_margin(p, n, z1).at_most(wilson_margin(p, n, z2)),
{
    lemma_wilson_finite(p, n, z1);
    lemma_wilson_finite(p, n, z2);
    lemma_wilson_margin_monotonic(p.units(), n.units(), z1.units(), z2.units());
}

/// The lower end of the Wilson score interval grows with the estimate, at
/// a z-score that is not negative.
pub proof fn lemma_lower_monotonic(p1: int, p2: int, n: int, z: int)
    requires
        0 <= p1 <= p2 <= SCALE,
        0 < n,
        0 <= z,
    ensures
        lower_units(p1, n, z, false) <= lower_units(p2, n, z, false),
{
    let s = SCALE as int;
    lemma_wilson_exact(p1, n, z);
    lemma_wilson_exact(p2, n, z);
    lemma_variance_bound(p1);
    lemma_variance_bound(p2);
    let w = z * z;
    let sw = s * w;
    let d = 2 * total(n, z);
    let x1 = radicand(p1, n, z);
    let x2 = radicand(p2, n, z);
    let a1 = s * (2 * (n * p1) + w);
    let a2 = s * (2 * (n * p2) + w);
    let gap = p2 - p1;
    let step = 2 * (s * (n * gap));
    assert(0 <= w) by (nonlinear_arith)
        requires
            w == z * z,
    ;
    assert(a2 - a1 == step && 0 <= step && 0 <= sw) by (nonlinear_arith)
        requires
            a1 == s * (2 * (n * p1) + w),
            a2 == s * (2 * (n * p2) + w),
            step == 2 * (s * (n * gap)),
            gap == p2 - p1,
            0 <= gap,
            0 < n,
            0 < s,
            sw == s * w,
            0 <= w,
    ;
    let nb1 = n * (p1 * (s - p1));
    let nb2 = n * (p2 * (s - p2));
    assert(0 <= nb1) by (nonlinear_arith)
        requires
            nb1 == n * (p1 * (s - p1)),
            0 <= p1 * (s - p1),
            0 < n,
    ;
    assert(nb2 - nb1 == (n * gap) * (s - p1 - p2)) by (nonlinear_arith)
        requires
            nb1 == n * (p1 * (s - p1)),
            nb2 == n * (p2 * (s - p2)),
            gap == p2 - p1,
    ;
    assert(x1 == sw * (4 * nb1 + sw) && x2 == sw * (4 * nb2 + sw));
    assert(sw * sw <= x1) by (nonlinear_arith)
        requires
            x1 == sw * (4 * nb1 + sw),
            0 <= nb1,
            0 <= sw,
    ;
    let ng = n * gap;
    assert(x2 - x1 == 4 * (sw * (ng * (s - p1 - p2)))) by (nonlinear_arith)
        requires
            x1 == sw * (4 * nb1 + sw),
            x2 == sw * (4 * nb2 + sw),
            nb2 - nb1 == ng * (s - p1 - p2),
    ;
    lemma_floor_root_exists(x1);
    lemma_ceil_root_least(x1, floor_root(x1) + 1);
    let rho = ceil_root(x1);
    assert(sw <= rho) by (nonlinear_arith)
        requires
            0 <= rho,
            0 <= sw,
            sw * sw <= x1,
            x1 <= rho * rho,
    ;
    let t = rho + step;
    // t * t = rho * rho + 2 * rho * step + step * step >= x1 + 2 * sw * step + step * step
    assert(t * t >= x1 + 2 * (sw * step) + step * step) by (nonlinear_arith)
        requires
            t == rho + step,
            x1 <= rho * rho,
            sw <= rho,
            0 <= step,
    ;
    assert(2 * (sw * step) == 4 * (sw * (ng * s))) by (nonlinear_arith)
        requires
            step == 2 * (s * ng),
    ;
    assert(sw * (ng * (s - p1 - p2)) <= sw * (ng * s)) by (nonlinear_arith)
        requires
            0 <= sw,
            0 <= ng,
            0 <= p1,
            0 <= p2,
    ;
    assert(0 <= ng) by (nonlinear_arith)
        requires
            ng == n * gap,
            0 < n,
            0 <= gap,
    ;
    assert(0 <= step * step) by (nonlinear_arith);
    assert(x2 <= t * t);
    lemma_ceil_root_least(x2, t);
    assert(a1 - rho <= a2 - ceil_root(x2));
    assert((a1 - rho) / d <= (a2 - ceil_root(x2)) / d) by (nonlinear_arith)
        requires
            a1 - rho <= a2 - ceil_root(x2),
            0 < d,
    ;
}

/// The continuity correction only widens: at a z-score that is not
/// negative, the corrected interval contains the Wilson score interval.
pub proof fn lemma_correction_widens(p: Decimal, n: Decimal, z: Decimal)
    requires
        estimable(p, n, z),
        Decimal::nought().at_most(z),
    ensures
        wilson_cc_interval(p, n, z).low().at_most(wilson_interval(p, n, z).low()),
        wilson_interval(p, n, z).high().at_most(wilson_cc_interval(p, n, z).high()),
{
    let s = SCALE as int;
    let pu = p.units();
    let nu = n.units();
    let zu = z.units();
    lemma_moved_estimates(pu, nu);
    let lp = moved_down(pu, nu);
    let up = moved_up(pu, nu);
    lemma_wilson_finite(p, n, z);
    lemma_wilson_cc_ordered(p, n, z);
    lemma_wilson_exact(pu, nu, zu);
    lemma_center_dominates(pu, nu, zu);
    lemma_center_leaves_room(pu, nu, zu);
    lemma_lower_monotonic(lp, pu, nu, zu);
    lemma_lower_monotonic(s - up, s - pu, nu, zu);
    lemma_mirror(s - up, nu, zu, false);
    lemma_mirror(s - pu, nu, zu, false);
    let d = 2 * total(nu, zu);
    let a = s * (2 * (nu * pu) + zu * zu);
    let f = floor_root(radicand(pu, nu, zu));
    let c = ceil_root(radicand(pu, nu, zu));
    // the plain bounds against the bounds rounded once
    assert((a - c) / d <= a / d - f / d) by (nonlinear_arith)
        requires
            0 <= f <= c <= a,
            0 < d,
    ;
    assert(a / d + f / d <= -((-(a + c)) / d)) by (nonlinear_arith)
        requires
            0 <= f <= c,
            0 <= a,
            0 < d,
    ;
}

/// Every estimate of a sample is made of numbers that are in order: the
/// lower bound, the mean, the upper bound. This holds where the sample's
/// point estimate lies between zero and one, its size is positive, and the
/// z-score lies between zero and one hundred thousand.
pub proof fn lemma_estimates_ordered<N: Count, S: Sample<N>>(sample: &S, z: Decimal)
    requires
        estimable(sample.estimate(), sample.trials().as_real(), z),
        Decimal::nought().at_most(z),
    ensures
        sample.wald_value(z).low().at_most(sample.wald_value(z).center()),
        sample.wald_value(z).center().at_most(sample.wald_value(z).high()),
        sample.wilson_score_value(z).low().at_most(sample.wilson_score_value(z).center()),
        sample.wilson_score_value(z).center().at_most(sample.wilson_score_value(z).high()),
        sample.wilson_score_with_cc_value(z).low().at_most(
            sample.wilson_score_with_cc_value(z).center(),
        ),
        sample.wilson_score_with_cc_value(z).center().at_most(
            sample.wilson_score_with_cc_value(z).high(),
        ),
{
    let p = sample.estimate();
    let n = sample.trials().as_real();
    lemma_wald_ordered(p, n, z);
    lemma_wilson_ordered(p, n, z);
    lemma_wilson_cc_ordered(p, n, z);
}

} // verus!
