//! The four arithmetic operators on [`Decimal`].

use vstd::prelude::*;
use vstd::std_specs::ops::{AddSpecImpl, DivSpecImpl, MulSpecImpl, SubSpecImpl};

use crate::decimal::{narrow, Decimal, SCALE};

verus! {

impl core::ops::Add for Decimal {
    type Output = Decimal;

    fn add(self, rhs: Decimal) -> (sum: Decimal)
        ensures
            sum == self.plus(rhs),
    {
        match (self, rhs) {
            (Decimal::Finite(a), Decimal::Finite(b)) => narrow(a as i128 + b as i128),
            _ => Decimal::Nan,
        }
    }
}

impl AddSpecImpl for Decimal {
    open spec fn obeys_add_spec() -> bool {
        true
    }

    open spec fn add_req(self, rhs: Decimal) -> bool {
        true
    }

    open spec fn add_spec(self, rhs: Decimal) -> Decimal {
        self.plus(rhs)
    }
}

impl core::ops::Sub for Decimal {
    type Output = Decimal;

    fn sub(self, rhs: Decimal) -> (difference: Decimal)
        ensures
            difference == self.minus(rhs),
    {
        match (self, rhs) {
            (Decimal::Finite(a), Decimal::Finite(b)) => narrow(a as i128 - b as i128),
            _ => Decimal::Nan,
        }
    }
}

impl SubSpecImpl for Decimal {
    open spec fn obeys_sub_spec() -> bool {
        true
    }

    open spec fn sub_req(self, rhs: Decimal) -> bool {
        true
    }

    open spec fn sub_spec(self, rhs: Decimal) -> Decimal {
        self.minus(rhs)
    }
}

impl core::ops::Mul for Decimal {
    type Output = Decimal;

    fn mul(self, rhs: Decimal) -> (product: Decimal)
        ensures
            product == self.times(rhs),
    {
        match (self, rhs) {
            (Decimal::Finite(a), Decimal::Finite(b)) => {
                assert(-0x4000_0000_0000_0000_0000_0000_0000_0000 <= a * b
                    <= 0x4000_0000_0000_0000_0000_0000_0000_0000) by (nonlinear_arith)
                    requires
                        -0x8000_0000_0000_0000 <= a <= 0x8000_0000_0000_0000,
                        -0x8000_0000_0000_0000 <= b <= 0x8000_0000_0000_0000,
                ;
                let wide: i128 = a as i128 * b as i128;
                narrow(wide / SCALE as i128)
            },
            _ => Decimal::Nan,
        }
    }
}

impl MulSpecImpl for Decimal {
    open spec fn obeys_mul_spec() -> bool {
        true
    }

    open spec fn mul_req(self, rhs: Decimal) -> bool {
        true
    }

    open spec fn mul_spec(self, rhs: Decimal) -> Decimal {
        self.times(rhs)
    }
}

impl core::ops::Div for Decimal {
    type Output = Decimal;

    fn div(self, rhs: Decimal) -> (ratio: Decimal)
        ensures
            ratio == self.over(rhs),
    {
        match (self, rhs) {
            (Decimal::Finite(a), Decimal::Finite(b)) => if b == 0 {
                Decimal::Nan
            } else {
                let wide: i128 = a as i128 * SCALE as i128;
                if b > 0 {
                    narrow(wide / b as i128)
                } else {
                    narrow((-wide) / -(b as i128))
                }
            },
            _ => Decimal::Nan,
        }
    }
}

impl DivSpecImpl for Decimal {
    open spec fn obeys_div_spec() -> bool {
        true
    }

    open spec fn div_req(self, rhs: Decimal) -> bool {
        true
    }

    open spec fn div_spec(self, rhs: Decimal) -> Decimal {
        self.over(rhs)
    }
}

} // verus!
