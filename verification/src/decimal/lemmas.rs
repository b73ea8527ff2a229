//! Facts about division that rounds toward zero.

use vstd::prelude::*;

use crate::decimal::{magnitude, quotient};

verus! {

/// Rounding toward zero keeps the sign of a ratio with a positive divisor,
/// and never moves it away from zero.
pub proof fn lemma_quotient_sign(n: int, d: int)
    requires
        d > 0,
    ensures
        n >= 0 ==> 0 <= quotient(n, d) && quotient(n, d) * d <= n,
        n <= 0 ==> quotient(n, d) <= 0 && quotient(n, d) * d >= n,
{
    let m = magnitude(n);
    assert(0 <= m / d && (m / d) * d <= m) by (nonlinear_arith)
        requires
            m >= 0,
            d > 0,
    ;
    assert((-(m / d)) * d == -((m / d) * d)) by (nonlinear_arith);
}

/// Rounding toward zero keeps the order of two numerators over a common
/// positive divisor.
pub proof fn lemma_quotient_monotonic(n1: int, n2: int, d: int)
    requires
        d > 0,
        n1 <= n2,
    ensures
        quotient(n1, d) <= quotient(n2, d),
{
    lemma_quotient_sign(n1, d);
    lemma_quotient_sign(n2, d);
    if n1 >= 0 {
        assert(n1 / d <= n2 / d) by (nonlinear_arith)
            requires
                0 <= n1 <= n2,
                d > 0,
        ;
    } else if n2 < 0 {
        let m1 = -n1;
        let m2 = -n2;
        assert(m2 / d <= m1 / d) by (nonlinear_arith)
            requires
                0 <= m2 <= m1,
                d > 0,
        ;
    }
}

/// A whole multiple divides without remainder.
pub proof fn lemma_quotient_exact(q: int, d: int)
    requires
        d > 0,
    ensures
        quotient(q * d, d) == q,
{
    if q >= 0 {
        assert(q * d >= 0 && (q * d) / d == q) by (nonlinear_arith)
            requires
                q >= 0,
                d > 0,
        ;
    } else {
        let m = -q;
        assert(q * d < 0 && -(q * d) == m * d && (m * d) / d == m) by (nonlinear_arith)
            requires
                m > 0,
                m == -q,
                d > 0,
        ;
    }
}

} // verus!
