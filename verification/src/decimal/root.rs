//! Square roots, rounded down to a whole number of billionths.

use vstd::prelude::*;

use crate::decimal::{Decimal, SCALE};
use crate::wide::Wide;

verus! {

/// Whether `r` is the integer square root of `x`, rounded down.
pub open spec fn is_floor_root(r: int, x: int) -> bool {
    0 <= r && r * r <= x < (r + 1) * (r + 1)
}

/// The integer square root of `x`, rounded down.
pub open spec fn floor_root(x: int) -> int
    recommends
        0 <= x,
{
    choose|r: int| is_floor_root(r, x)
}

/// Every non-negative integer has a rounded-down square root.
pub proof fn lemma_floor_root_exists(x: int)
    requires
        0 <= x,
    ensures
        is_floor_root(floor_root(x), x),
    decreases x,
{
    if x == 0 {
        assert(is_floor_root(0, 0));
    } else {
        lemma_floor_root_exists(x - 1);
        let r = floor_root(x - 1);
        if (r + 1) * (r + 1) <= x {
            assert((r + 2) * (r + 2) > x) by (nonlinear_arith)
                requires
                    0 <= r,
                    x - 1 < (r + 1) * (r + 1),
            ;
            assert(is_floor_root(r + 1, x));
        } else {
            assert(is_floor_root(r, x));
        }
    }
}

/// No integer has two rounded-down square roots.
pub proof fn lemma_floor_root_unique(x: int, r: int)
    requires
        is_floor_root(r, x),
    ensures
        floor_root(x) == r,
{
    let s = floor_root(x);
    assert(is_floor_root(s, x));
    assert(s == r) by (nonlinear_arith)
        requires
            0 <= r,
            0 <= s,
            r * r <= x < (r + 1) * (r + 1),
            s * s <= x < (s + 1) * (s + 1),
    ;
}

/// The integer square root of `x`, rounded down.
fn integer_root(x: u128) -> (r: u128)
    requires
        x < 0x2000_0000_0000_0000_0000_0000,
    ensures
        r == floor_root(x as int),
        r < 0x8000_0000_0000,
{
    let mut low: u128 = 0;
    let mut high: u128 = 0x8000_0000_0000;
    assert(0x8000_0000_0000 * 0x8000_0000_0000 == 0x4000_0000_0000_0000_0000_0000int)
        by (nonlinear_arith);
    while high - low > 1
        invariant
            low < high <= 0x8000_0000_0000,
            low * low <= x < high * high,
        decreases high - low,
    {
        let middle: u128 = low + (high - low) / 2;
        assert(middle * middle < 0x4000_0000_0000_0000_0000_0000) by (nonlinear_arith)
            requires
                middle < 0x8000_0000_0000,
        ;
        if middle * middle <= x {
            low = middle;
        } else {
            high = middle;
        }
    }
    proof {
        lemma_floor_root_unique(x as int, low as int);
    }
    low
}

/// The integer square root of `x`, rounded up.
pub open spec fn ceil_root(x: int) -> int
    recommends
        0 <= x,
{
    if floor_root(x) * floor_root(x) == x {
        floor_root(x)
    } else {
        floor_root(x) + 1
    }
}

/// The rounded-up square root is the least integer that is not negative
/// and whose square is at least `x`.
pub proof fn lemma_ceil_root_least(x: int, t: int)
    requires
        0 <= x,
        0 <= t,
        x <= t * t,
    ensures
        0 <= ceil_root(x) <= t,
        x <= ceil_root(x) * ceil_root(x),
{
    lemma_floor_root_exists(x);
    let r = floor_root(x);
    assert(r <= t) by (nonlinear_arith)
        requires
            0 <= r,
            0 <= t,
            r * r <= x,
            x <= t * t,
    ;
    if r * r != x {
        assert(r + 1 <= t) by (nonlinear_arith)
            requires
                0 <= r,
                0 <= t,
                r * r < x,
                x <= t * t,
        ;
    }
}

/// The integer square root of the product `a * b`, rounded down.
pub(crate) fn root_of_product(a: u128, b: u128) -> (r: u128)
    requires
        a < 0x8000_0000_0000_0000_0000_0000_0000_0000,
        b < 0x8000_0000_0000_0000_0000_0000_0000_0000,
    ensures
        r == floor_root(a * b),
        r <= a || r <= b,
{
    let target = Wide::product(a, b);
    let mut low: u128 = 0;
    let mut high: u128 = if a < b {
        b + 1
    } else {
        a + 1
    };
    assert(0 <= a * b < high * high) by (nonlinear_arith)
        requires
            0 <= a < high,
            0 <= b < high,
    ;
    while high - low > 1
        invariant
            low < high <= 0x8000_0000_0000_0000_0000_0000_0000_0000,
            high <= a + 1 || high <= b + 1,
            low * low <= a * b < high * high,
            target.value() == a * b,
        decreases high - low,
    {
        let middle: u128 = low + (high - low) / 2;
        let square = Wide::product(middle, middle);
        if square.at_most(&target) {
            low = middle;
        } else {
            high = middle;
        }
    }
    proof {
        lemma_floor_root_unique(a * b, low as int);
    }
    low
}

/// The integer square root of the ratio `a * b / divisor`, rounded down.
pub(crate) fn root_of_ratio(a: u128, b: u128, divisor: u128) -> (r: u128)
    requires
        0 < divisor < 0x1_0000_0000_0000_0000_0000_0000,
        a * b < 0x1000_0000_0000_0000_0000_0000_0000_0000 * divisor,
    ensures
        r == floor_root((a * b) / (divisor as int)),
        r * r * divisor <= a * b < (r + 1) * (r + 1) * divisor,
        r < 0x4000_0000_0000_0000,
{
    let target = Wide::product(a, b);
    let mut low: u128 = 0;
    let mut high: u128 = 0x4000_0000_0000_0000;
    assert(0 <= a * b) by (nonlinear_arith)
        requires
            0 <= a,
            0 <= b,
    ;
    assert(0x4000_0000_0000_0000 * 0x4000_0000_0000_0000
        == 0x1000_0000_0000_0000_0000_0000_0000_0000int) by (nonlinear_arith);
    assert(0 * 0 * divisor == 0) by (nonlinear_arith);
    while high - low > 1
        invariant
            low < high <= 0x4000_0000_0000_0000,
            low * low * divisor <= a * b < high * high * divisor,
            target.value() == a * b,
            0 < divisor < 0x1_0000_0000_0000_0000_0000_0000,
        decreases high - low,
    {
        let middle: u128 = low + (high - low) / 2;
        assert(middle * middle < 0x1000_0000_0000_0000_0000_0000_0000_0000) by (nonlinear_arith)
            requires
                0 <= middle < 0x4000_0000_0000_0000,
        ;
        let scaled = Wide::product(middle * middle, divisor);
        if scaled.at_most(&target) {
            low = middle;
        } else {
            high = middle;
        }
    }
    proof {
        let n = a * b;
        let d = divisor as int;
        let q = n / d;
        assert(low * low <= q && q < (low + 1) * (low + 1)) by (nonlinear_arith)
            requires
                low * low * d <= n,
                n < (low + 1) * (low + 1) * d,
                q == n / d,
                d > 0,
                0 <= n,
        ;
        lemma_floor_root_unique(q, low as int);
    }
    low
}

impl Decimal {
    /// Square root, rounded down to a whole number of billionths; a negative
    /// number has none.
    pub open spec fn root(self) -> Decimal {
        match self {
            Decimal::Finite(a) => if a < 0 {
                Decimal::Nan
            } else {
                Decimal::of_units(floor_root(a * SCALE))
            },
            Decimal::Nan => Decimal::Nan,
        }
    }

    /// Square root, rounded down to a whole number of billionths; a negative
    /// number has none.
    pub fn sqrt(self) -> (r: Decimal)
        ensures
            r == self.root(),
    {
        match self {
            Decimal::Finite(a) => if a < 0 {
                Decimal::Nan
            } else {
                let wide: u128 = a as u128 * SCALE as u128;
                let r: u128 = integer_root(wide);
                Decimal::Finite(r as i64)
            },
            Decimal::Nan => Decimal::Nan,
        }
    }
}

} // verus!
