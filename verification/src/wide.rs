//! Products of two 128-bit numbers, held in full.

use vstd::prelude::*;

verus! {

/// A non-negative integer below two to the power of 256, in two halves.
#[derive(Clone, Copy, Debug)]
pub struct Wide {
    pub high: u128,
    pub low: u128,
}

impl Wide {
    /// The integer that the two halves stand for.
    pub open spec fn value(self) -> int {
        self.high * 0x1_0000_0000_0000_0000_0000_0000_0000_0000 + self.low
    }

    /// The product of two numbers, in full.
    pub fn product(a: u128, b: u128) -> (w: Wide)
        ensures
            w.value() == a * b,
    {
        let k: u128 = 0x1_0000_0000_0000_0000;
        let a1: u128 = a / k;
        let a0: u128 = a % k;
        let b1: u128 = b / k;
        let b0: u128 = b % k;
        proof {
            lemma_half_product(a0 as int, b0 as int);
            lemma_half_product(a0 as int, b1 as int);
            lemma_half_product(a1 as int, b0 as int);
            lemma_half_product(a1 as int, b1 as int);
        }
        let ll: u128 = a0 * b0;
        let lh: u128 = a0 * b1;
        let hl: u128 = a1 * b0;
        let hh: u128 = a1 * b1;
        let t: u128 = ll / k + lh % k + hl % k;
        let low: u128 = ll % k + (t % k) * k;
        let high: u128 = hh + lh / k + hl / k + t / k;
        assert(a * b == hh * (k * k) + (lh + hl) * k + ll) by (nonlinear_arith)
            requires
                a == a1 * k + a0,
                b == b1 * k + b0,
                ll == a0 * b0,
                lh == a0 * b1,
                hl == a1 * b0,
                hh == a1 * b1,
        ;
        assert(k * k == 0x1_0000_0000_0000_0000_0000_0000_0000_0000) by (nonlinear_arith)
            requires
                k == 0x1_0000_0000_0000_0000,
        ;
        Wide { high, low }
    }

    /// Whether this number does not exceed the other.
    pub fn at_most(&self, other: &Wide) -> (r: bool)
        ensures
            r == (self.value() <= other.value()),
    {
        self.high < other.high || (self.high == other.high && self.low <= other.low)
    }
}

/// The product of two numbers below two to the power of 64 leaves room
/// below two to the power of 128.
proof fn lemma_half_product(x: int, y: int)
    requires
        0 <= x < 0x1_0000_0000_0000_0000,
        0 <= y < 0x1_0000_0000_0000_0000,
    ensures
        0 <= x * y <= 0xffff_ffff_ffff_fffe_0000_0000_0000_0001,
{
    assert(0 <= x * y <= 0xffff_ffff_ffff_ffff * 0xffff_ffff_ffff_ffff) by (nonlinear_arith)
        requires
            0 <= x <= 0xffff_ffff_ffff_ffff,
            0 <= y <= 0xffff_ffff_ffff_ffff,
    ;
    assert(0xffff_ffff_ffff_ffff * 0xffff_ffff_ffff_ffff
        == 0xffff_ffff_ffff_fffe_0000_0000_0000_0001int) by (nonlinear_arith);
}

} // verus!
