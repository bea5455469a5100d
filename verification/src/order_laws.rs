//! Laws of equality and order on `i24`: both follow the integers that the values
//! stand for.
use crate::int24::i24;
use core::cmp::Ordering;
use vstd::prelude::*;
use vstd::std_specs::cmp::{PartialEqSpec, PartialOrdSpec};

verus! {

/// Two values are equal exactly when they stand for the same integer, and `==`
/// on `i24` keeps to that.
pub proof fn law_equality_follows_value(a: i24, b: i24)
    ensures
        i24::obeys_eq_spec(),
        a.eq_spec(&b) <==> a@ == b@,
        !a.eq_spec(&b) <==> a@ != b@,
{
}

/// Values are ordered by the integers that they stand for: `partial_cmp`,
/// `<`, `<=`, `>` and `>=` keep to that, no value is less than itself, and the
/// order agrees with equality.
pub proof fn law_order_follows_value(a: i24, b: i24)
    ensures
        i24::obeys_partial_cmp_spec(),
        (a.partial_cmp_spec(&b) == Some(Ordering::Less)) <==> a@ < b@,
        (a.partial_cmp_spec(&b) == Some(Ordering::Equal)) <==> a@ == b@,
        (a.partial_cmp_spec(&b) == Some(Ordering::Greater)) <==> a@ > b@,
        a.partial_cmp_spec(&b) is Some,
        a.partial_cmp_spec(&a) == Some(Ordering::Equal),
        (a.partial_cmp_spec(&b) == Some(Ordering::Equal)) <==> a.eq_spec(&b),
        (a.partial_cmp_spec(&b) == Some(Ordering::Less)) <==> (b.partial_cmp_spec(&a) == Some(
            Ordering::Greater,
        )),
{
}

} // verus!
