//! The binary operators of `i24` where one or both operands are references:
//! each gives what the same operator gives on the values.
//!
//! Each operator states its result in its own `ensures`. Its `*SpecImpl`
//! reports that it does not follow the generic operator contract
//! (`obeys_*_spec` is `false`), so nothing is claimed through that route; the
//! precondition (a nonzero divisor for `/` and `%`) still binds every caller.
use crate::int24::i24;
use crate::spec::{and24, or24, trunc_div, trunc_rem, wrap24, xor24};
use vstd::prelude::*;
use vstd::std_specs::ops::{
    AddSpecImpl, BitAndSpecImpl, BitOrSpecImpl, BitXorSpecImpl, DivSpecImpl, MulSpecImpl,
    RemSpecImpl, SubSpecImpl,
};

verus! {

impl core::ops::Add<&i24> for i24 {
    type Output = i24;

    /// Wrapping addition.
    fn add(self, rhs: &i24) -> (r: i24)
        ensures
            r@ == wrap24(self@ + rhs@),
    {
        self + *rhs
    }
}

impl AddSpecImpl<&i24> for i24 {
    open spec fn obeys_add_spec() -> bool {
        false
    }

    open spec fn add_req(self, rhs: &i24) -> bool {
        true
    }

    open spec fn add_spec(self, rhs: &i24) -> i24 {
        i24::spec_from_int(wrap24(self@ + rhs@))
    }
}

impl core::ops::Add<i24> for &i24 {
    type Output = i24;

    /// Wrapping addition.
    fn add(self, rhs: i24) -> (r: i24)
        ensures
            r@ == wrap24(self@ + rhs@),
    {
        *self + rhs
    }
}

impl AddSpecImpl<i24> for &i24 {
    open spec fn obeys_add_spec() -> bool {
        false
    }

    open spec fn add_req(self, rhs: i24) -> bool {
        true
    }

    open spec fn add_spec(self, rhs: i24) -> i24 {
        i24::spec_from_int(wrap24(self@ + rhs@))
    }
}

impl core::ops::Add<&i24> for &i24 {
    type Output = i24;

    /// Wrapping addition.
    fn add(self, rhs: &i24) -> (r: i24)
        ensures
            r@ == wrap24(self@ + rhs@),
    {
        *self + *rhs
    }
}

impl AddSpecImpl<&i24> for &i24 {
    open spec fn obeys_add_spec() -> bool {
        false
    }

    open spec fn add_req(self, rhs: &i24) -> bool {
        true
    }

    open spec fn add_spec(self, rhs: &i24) -> i24 {
        i24::spec_from_int(wrap24(self@ + rhs@))
    }
}

impl core::ops::AddAssign<&i24> for i24 {
    fn add_assign(&mut self, rhs: &i24)
        ensures
            final(self)@ == wrap24(old(self)@ + rhs@),
    {
        *self = *self + *rhs;
    }
}

impl core::ops::Sub<&i24> for i24 {
    type Output = i24;

    /// Wrapping subtraction.
    fn sub(self, rhs: &i24) -> (r: i24)
        ensures
            r@ == wrap24(self@ - rhs@),
    {
        self - *rhs
    }
}

impl SubSpecImpl<&i24> for i24 {
    open spec fn obeys_sub_spec() -> bool {
        false
    }

    open spec fn sub_req(self, rhs: &i24) -> bool {
        true
    }

    open spec fn sub_spec(self, rhs: &i24) -> i24 {
        i24::spec_from_int(wrap24(self@ - rhs@))
    }
}

impl core::ops::Sub<i24> for &i24 {
    type Output = i24;

    /// Wrapping subtraction.
    fn sub(self, rhs: i24) -> (r: i24)
        ensures
            r@ == wrap24(self@ - rhs@),
    {
        *self - rhs
    }
}

impl SubSpecImpl<i24> for &i24 {
    open spec fn obeys_sub_spec() -> bool {
        false
    }

    open spec fn sub_req(self, rhs: i24) -> bool {
        true
    }

    open spec fn sub_spec(self, rhs: i24) -> i24 {
        i24::spec_from_int(wrap24(self@ - rhs@))
    }
}

impl core::ops::Sub<&i24> for &i24 {
    type Output = i24;

    /// Wrapping subtraction.
    fn sub(self, rhs: &i24) -> (r: i24)
        ensures
            r@ == wrap24(self@ - rhs@),
    {
        *self - *rhs
    }
}

impl SubSpecImpl<&i24> for &i24 {
    open spec fn obeys_sub_spec() -> bool {
        false
    }

    open spec fn sub_req(self, rhs: &i24) -> bool {
        true
    }

    open spec fn sub_spec(self, rhs: &i24) -> i24 {
        i24::spec_from_int(wrap24(self@ - rhs@))
    }
}

impl core::ops::SubAssign<&i24> for i24 {
    fn sub_assign(&mut self, rhs: &i24)
        ensures
            final(self)@ == wrap24(old(self)@ - rhs@),
    {
        *self = *self - *rhs;
    }
}

impl core::ops::Mul<&i24> for i24 {
    type Output = i24;

    /// Wrapping multiplication.
    fn mul(self, rhs: &i24) -> (r: i24)
        ensures
            r@ == wrap24(self@ * rhs@),
    {
        self * *rhs
    }
}

impl MulSpecImpl<&i24> for i24 {
    open spec fn obeys_mul_spec() -> bool {
        false
    }

    open spec fn mul_req(self, rhs: &i24) -> bool {
        true
    }

    open spec fn mul_spec(self, rhs: &i24) -> i24 {
        i24::spec_from_int(wrap24(self@ * rhs@))
    }
}

impl core::ops::Mul<i24> for &i24 {
    type Output = i24;

    /// Wrapping multiplication.
    fn mul(self, rhs: i24) -> (r: i24)
        ensures
            r@ == wrap24(self@ * rhs@),
    {
        *self * rhs
    }
}

impl MulSpecImpl<i24> for &i24 {
    open spec fn obeys_mul_spec() -> bool {
        false
    }

    open spec fn mul_req(self, rhs: i24) -> bool {
        true
    }

    open spec fn mul_spec(self, rhs: i24) -> i24 {
        i24::spec_from_int(wrap24(self@ * rhs@))
    }
}

impl core::ops::Mul<&i24> for &i24 {
    type Output = i24;

    /// Wrapping multiplication.
    fn mul(self, rhs: &i24) -> (r: i24)
        ensures
            r@ == wrap24(self@ * rhs@),
    {
        *self * *rhs
    }
}

impl MulSpecImpl<&i24> for &i24 {
    open spec fn obeys_mul_spec() -> bool {
        false
    }

    open spec fn mul_req(self, rhs: &i24) -> bool {
        true
    }

    open spec fn mul_spec(self, rhs: &i24) -> i24 {
        i24::spec_from_int(wrap24(self@ * rhs@))
    }
}

impl core::ops::MulAssign<&i24> for i24 {
    fn mul_assign(&mut self, rhs: &i24)
        ensures
            final(self)@ == wrap24(old(self)@ * rhs@),
    {
        *self = *self * *rhs;
    }
}

impl core::ops::Div<&i24> for i24 {
    type Output = i24;

    /// Division rounding towards zero, wrapping on overflow. The divisor must not be zero.
    fn div(self, rhs: &i24) -> (r: i24)
        ensures
            r@ == wrap24(trunc_div(self@, rhs@)),
    {
        self / *rhs
    }
}

impl DivSpecImpl<&i24> for i24 {
    open spec fn obeys_div_spec() -> bool {
        false
    }

    open spec fn div_req(self, rhs: &i24) -> bool {
        rhs@ != 0
    }

    open spec fn div_spec(self, rhs: &i24) -> i24 {
        i24::spec_from_int(wrap24(trunc_div(self@, rhs@)))
    }
}

impl core::ops::Div<i24> for &i24 {
    type Output = i24;

    /// Division rounding towards zero, wrapping on overflow. The divisor must not be zero.
    fn div(self, rhs: i24) -> (r: i24)
        ensures
            r@ == wrap24(trunc_div(self@, rhs@)),
    {
        *self / rhs
    }
}

impl DivSpecImpl<i24> for &i24 {
    open spec fn obeys_div_spec() -> bool {
        false
    }

    open spec fn div_req(self, rhs: i24) -> bool {
        rhs@ != 0
    }

    open spec fn div_spec(self, rhs: i24) -> i24 {
        i24::spec_from_int(wrap24(trunc_div(self@, rhs@)))
    }
}

impl core::ops::Div<&i24> for &i24 {
    type Output = i24;

    /// Division rounding towards zero, wrapping on overflow. The divisor must not be zero.
    fn div(self, rhs: &i24) -> (r: i24)
        ensures
            r@ == wrap24(trunc_div(self@, rhs@)),
    {
        *self / *rhs
    }
}

impl DivSpecImpl<&i24> for &i24 {
    open spec fn obeys_div_spec() -> bool {
        false
    }

    open spec fn div_req(self, rhs: &i24) -> bool {
        rhs@ != 0
    }

    open spec fn div_spec(self, rhs: &i24) -> i24 {
        i24::spec_from_int(wrap24(trunc_div(self@, rhs@)))
    }
}

impl core::ops::DivAssign<&i24> for i24 {
    fn div_assign(&mut self, rhs: &i24)
        requires
            rhs@ != 0,
        ensures
            final(self)@ == wrap24(trunc_div(old(self)@, rhs@)),
    {
        *self = *self / *rhs;
    }
}

impl core::ops::Rem<&i24> for i24 {
    type Output = i24;

    /// Remainder of the division rounding towards zero. The divisor must not be zero.
    fn rem(self, rhs: &i24) -> (r: i24)
        ensures
            r@ == wrap24(trunc_rem(self@, rhs@)),
    {
        self % *rhs
    }
}

impl RemSpecImpl<&i24> for i24 {
    open spec fn obeys_rem_spec() -> bool {
        false
    }

    open spec fn rem_req(self, rhs: &i24) -> bool {
        rhs@ != 0
    }

    open spec fn rem_spec(self, rhs: &i24) -> i24 {
        i24::spec_from_int(wrap24(trunc_rem(self@, rhs@)))
    }
}

impl core::ops::Rem<i24> for &i24 {
    type Output = i24;

    /// Remainder of the division rounding towards zero. The divisor must not be zero.
    fn rem(self, rhs: i24) -> (r: i24)
        ensures
            r@ == wrap24(trunc_rem(self@, rhs@)),
    {
        *self % rhs
    }
}

impl RemSpecImpl<i24> for &i24 {
    open spec fn obeys_rem_spec() -> bool {
        false
    }

    open spec fn rem_req(self, rhs: i24) -> bool {
        rhs@ != 0
    }

    open spec fn rem_spec(self, rhs: i24) -> i24 {
        i24::spec_from_int(wrap24(trunc_rem(self@, rhs@)))
    }
}

impl core::ops::Rem<&i24> for &i24 {
    type Output = i24;

    /// Remainder of the division rounding towards zero. The divisor must not be zero.
    fn rem(self, rhs: &i24) -> (r: i24)
        ensures
            r@ == wrap24(trunc_rem(self@, rhs@)),
    {
        *self % *rhs
    }
}

impl RemSpecImpl<&i24> for &i24 {
    open spec fn obeys_rem_spec() -> bool {
        false
    }

    open spec fn rem_req(self, rhs: &i24) -> bool {
        rhs@ != 0
    }

    open spec fn rem_spec(self, rhs: &i24) -> i24 {
        i24::spec_from_int(wrap24(trunc_rem(self@, rhs@)))
    }
}

impl core::ops::RemAssign<&i24> for i24 {
    fn rem_assign(&mut self, rhs: &i24)
        requires
            rhs@ != 0,
        ensures
            final(self)@ == wrap24(trunc_rem(old(self)@, rhs@)),
    {
        *self = *self % *rhs;
    }
}

impl core::ops::BitAnd<&i24> for i24 {
    type Output = i24;

    /// Bitwise and of the 24-bit patterns.
    fn bitand(self, rhs: &i24) -> (r: i24)
        ensures
            r@ == and24(self@, rhs@),
    {
        self & *rhs
    }
}

impl BitAndSpecImpl<&i24> for i24 {
    open spec fn obeys_bitand_spec() -> bool {
        false
    }

    open spec fn bitand_req(self, rhs: &i24) -> bool {
        true
    }

    open spec fn bitand_spec(self, rhs: &i24) -> i24 {
        i24::spec_from_int(and24(self@, rhs@))
    }
}

impl core::ops::BitAnd<i24> for &i24 {
    type Output = i24;

    /// Bitwise and of the 24-bit patterns.
    fn bitand(self, rhs: i24) -> (r: i24)
        ensures
            r@ == and24(self@, rhs@),
    {
        *self & rhs
    }
}

impl BitAndSpecImpl<i24> for &i24 {
    open spec fn obeys_bitand_spec() -> bool {
        false
    }

    open spec fn bitand_req(self, rhs: i24) -> bool {
        true
    }

    open spec fn bitand_spec(self, rhs: i24) -> i24 {
        i24::spec_from_int(and24(self@, rhs@))
    }
}

impl core::ops::BitAnd<&i24> for &i24 {
    type Output = i24;

    /// Bitwise and of the 24-bit patterns.
    fn bitand(self, rhs: &i24) -> (r: i24)
        ensures
            r@ == and24(self@, rhs@),
    {
        *self & *rhs
    }
}

impl BitAndSpecImpl<&i24> for &i24 {
    open spec fn obeys_bitand_spec() -> bool {
        false
    }

    open spec fn bitand_req(self, rhs: &i24) -> bool {
        true
    }

    open spec fn bitand_spec(self, rhs: &i24) -> i24 {
        i24::spec_from_int(and24(self@, rhs@))
    }
}

impl core::ops::BitAndAssign<&i24> for i24 {
    fn bitand_assign(&mut self, rhs: &i24)
        ensures
            final(self)@ == and24(old(self)@, rhs@),
    {
        *self = *self & *rhs;
    }
}

impl core::ops::BitOr<&i24> for i24 {
    type Output = i24;

    /// Bitwise or of the 24-bit patterns.
    fn bitor(self, rhs: &i24) -> (r: i24)
        ensures
            r@ == or24(self@, rhs@),
    {
        self | *rhs
    }
}

impl BitOrSpecImpl<&i24> for i24 {
    open spec fn obeys_bitor_spec() -> bool {
        false
    }

    open spec fn bitor_req(self, rhs: &i24) -> bool {
        true
    }

    open spec fn bitor_spec(self, rhs: &i24) -> i24 {
        i24::spec_from_int(or24(self@, rhs@))
    }
}

impl core::ops::BitOr<i24> for &i24 {
    type Output = i24;

    /// Bitwise or of the 24-bit patterns.
    fn bitor(self, rhs: i24) -> (r: i24)
        ensures
            r@ == or24(self@, rhs@),
    {
        *self | rhs
    }
}

impl BitOrSpecImpl<i24> for &i24 {
    open spec fn obeys_bitor_spec() -> bool {
        false
    }

    open spec fn bitor_req(self, rhs: i24) -> bool {
        true
    }

    open spec fn bitor_spec(self, rhs: i24) -> i24 {
        i24::spec_from_int(or24(self@, rhs@))
    }
}

impl core::ops::BitOr<&i24> for &i24 {
    type Output = i24;

    /// Bitwise or of the 24-bit patterns.
    fn bitor(self, rhs: &i24) -> (r: i24)
        ensures
            r@ == or24(self@, rhs@),
    {
        *self | *rhs
    }
}

impl BitOrSpecImpl<&i24> for &i24 {
    open spec fn obeys_bitor_spec() -> bool {
        false
    }

    open spec fn bitor_req(self, rhs: &i24) -> bool {
        true
    }

    open spec fn bitor_spec(self, rhs: &i24) -> i24 {
        i24::spec_from_int(or24(self@, rhs@))
    }
}

impl core::ops::BitOrAssign<&i24> for i24 {
    fn bitor_assign(&mut self, rhs: &i24)
        ensures
            final(self)@ == or24(old(self)@, rhs@),
    {
        *self = *self | *rhs;
    }
}

impl core::ops::BitXor<&i24> for i24 {
    type Output = i24;

    /// Bitwise exclusive or of the 24-bit patterns.
    fn bitxor(self, rhs: &i24) -> (r: i24)
        ensures
            r@ == xor24(self@, rhs@),
    {
        self ^ *rhs
    }
}

impl BitXorSpecImpl<&i24> for i24 {
    open spec fn obeys_bitxor_spec() -> bool {
        false
    }

    open spec fn bitxor_req(self, rhs: &i24) -> bool {
        true
    }

    open spec fn bitxor_spec(self, rhs: &i24) -> i24 {
        i24::spec_from_int(xor24(self@, rhs@))
    }
}

impl core::ops::BitXor<i24> for &i24 {
    type Output = i24;

    /// Bitwise exclusive or of the 24-bit patterns.
    fn bitxor(self, rhs: i24) -> (r: i24)
        ensures
            r@ == xor24(self@, rhs@),
    {
        *self ^ rhs
    }
}

impl BitXorSpecImpl<i24> for &i24 {
    open spec fn obeys_bitxor_spec() -> bool {
        false
    }

    open spec fn bitxor_req(self, rhs: i24) -> bool {
        true
    }

    open spec fn bitxor_spec(self, rhs: i24) -> i24 {
        i24::spec_from_int(xor24(self@, rhs@))
    }
}

impl core::ops::BitXor<&i24> for &i24 {
    type Output = i24;

    /// Bitwise exclusive or of the 24-bit patterns.
    fn bitxor(self, rhs: &i24) -> (r: i24)
        ensures
            r@ == xor24(self@, rhs@),
    {
        *self ^ *rhs
    }
}

impl BitXorSpecImpl<&i24> for &i24 {
    open spec fn obeys_bitxor_spec() -> bool {
        false
    }

    open spec fn bitxor_req(self, rhs: &i24) -> bool {
        true
    }

    open spec fn bitxor_spec(self, rhs: &i24) -> i24 {
        i24::spec_from_int(xor24(self@, rhs@))
    }
}

impl core::ops::BitXorAssign<&i24> for i24 {
    fn bitxor_assign(&mut self, rhs: &i24)
        ensures
            final(self)@ == xor24(old(self)@, rhs@),
    {
        *self = *self ^ *rhs;
    }
}

} // verus!
