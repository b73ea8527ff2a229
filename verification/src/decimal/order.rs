//! Equality and order on [`Decimal`]: `Nan` is equal to nothing and ordered
//! against nothing, itself included.

use core::cmp::Ordering;
use vstd::prelude::*;
use vstd::std_specs::cmp::{PartialEqSpecImpl, PartialOrdSpecImpl};

use crate::decimal::Decimal;

verus! {

impl PartialEq for Decimal {
    fn eq(&self, other: &Decimal) -> (equal: bool)
        ensures
            equal == (self.finite() && other.finite() && self.units() == other.units()),
    {
        match (*self, *other) {
            (Decimal::Finite(a), Decimal::Finite(b)) => a == b,
            _ => false,
        }
    }
}

impl PartialEqSpecImpl for Decimal {
    open spec fn obeys_eq_spec() -> bool {
        true
    }

    open spec fn eq_spec(&self, other: &Decimal) -> bool {
        self.finite() && other.finite() && self.units() == other.units()
    }
}

impl PartialOrd for Decimal {
    fn partial_cmp(&self, other: &Decimal) -> (order: Option<Ordering>)
        ensures
            order == Some(Ordering::Less) <==> self.below(*other),
            order == Some(Ordering::Greater) <==> other.below(*self),
            order == Some(Ordering::Equal) <==> self.finite() && other.finite() && self.units()
                == other.units(),
            order is None <==> !self.finite() || !other.finite(),
    {
        match (*self, *other) {
            (Decimal::Finite(a), Decimal::Finite(b)) => if a < b {
                Some(Ordering::Less)
            } else if a > b {
                Some(Ordering::Greater)
            } else {
                Some(Ordering::Equal)
            },
            _ => None,
        }
    }
}

impl PartialOrdSpecImpl for Decimal {
    open spec fn obeys_partial_cmp_spec() -> bool {
        true
    }

    open spec fn partial_cmp_spec(&self, other: &Decimal) -> Option<Ordering> {
        if self.below(*other) {
            Some(Ordering::Less)
        } else if other.below(*self) {
            Some(Ordering::Greater)
        } else if self.finite() && other.finite() {
            Some(Ordering::Equal)
        } else {
            None
        }
    }
}

} // verus!
