//! Equality and order of `i24`: both follow the integer that a value stands for.
use crate::int24::i24;
use core::cmp::Ordering;
use vstd::prelude::*;
use vstd::std_specs::cmp::{PartialEqSpecImpl, PartialOrdSpecImpl};

verus! {

impl PartialEq for i24 {
    fn eq(&self, other: &i24) -> (r: bool) {
        self.to_i32() == other.to_i32()
    }
}

impl PartialEqSpecImpl for i24 {
    open spec fn obeys_eq_spec() -> bool {
        true
    }

    /// Two values are equal when they stand for the same integer.
    open spec fn eq_spec(&self, other: &i24) -> bool {
        self@ == other@
    }
}

impl PartialOrd for i24 {
    fn partial_cmp(&self, other: &i24) -> (r: Option<Ordering>) {
        let a = self.to_i32();
        let b = other.to_i32();
        if a < b {
            Some(Ordering::Less)
        } else if a == b {
            Some(Ordering::Equal)
        } else {
            Some(Ordering::Greater)
        }
    }
}

impl PartialOrdSpecImpl for i24 {
    open spec fn obeys_partial_cmp_spec() -> bool {
        true
    }

    /// Values are ordered as the integers that they stand for.
    open spec fn partial_cmp_spec(&self, other: &i24) -> Option<Ordering> {
        if self@ < other@ {
            Some(Ordering::Less)
        } else if self@ == other@ {
            Some(Ordering::Equal)
        } else {
            Some(Ordering::Greater)
        }
    }
}

} // verus!
