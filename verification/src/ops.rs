//! The operators of `i24`: wrapping arithmetic, bitwise operations and shifts.
use crate::int24::{i24, lemma_view_in_range};
use crate::spec::{and24, lemma_wrap24_id, not24, or24, trunc_div, trunc_rem, wrap24, xor24};
use vstd::arithmetic::div_mod::lemma_div_is_ordered;
use vstd::arithmetic::power2::pow2;
use vstd::bits::{lemma_u64_pow2_no_overflow, lemma_u64_shl_is_mul};
use vstd::prelude::*;
use vstd::std_specs::ops::{
    AddSpecImpl, BitAndSpecImpl, BitOrSpecImpl, BitXorSpecImpl, DivSpecImpl, MulSpecImpl,
    NegSpecImpl, NotSpecImpl, RemSpecImpl, ShlSpecImpl, ShrSpecImpl, SubSpecImpl,
};

verus! {

/// `2^n` for a shift amount below 32, as an `i64`.
fn pow2_i64(n: u32) -> (r: i64)
    requires
        n < 32,
    ensures
        r == pow2(n as nat),
        1 <= r <= 0x8000_0000,
{
    proof {
        lemma_u64_pow2_no_overflow(n as nat);
        lemma_u64_shl_is_mul(1u64, n as u64);
        vstd::arithmetic::power2::lemma_pow2_strictly_increases(n as nat, 32);
        vstd::arithmetic::power2::lemma2_to64();
    }
    let p: u64 = 1u64 << (n as u64);
    p as i64
}

impl core::ops::Add for i24 {
    type Output = i24;

    /// Wrapping addition.
    fn add(self, rhs: i24) -> (r: i24)
        ensures
            r@ == wrap24(self@ + rhs@),
            r == i24::spec_from_int(self@ + rhs@),
    {
        i24::wrap_from_i64(self.to_i32() as i64 + rhs.to_i32() as i64)
    }
}

impl AddSpecImpl for i24 {
    open spec fn obeys_add_spec() -> bool {
        true
    }

    open spec fn add_req(self, rhs: i24) -> bool {
        true
    }

    open spec fn add_spec(self, rhs: i24) -> i24 {
        i24::spec_from_int(self@ + rhs@)
    }
}

impl core::ops::AddAssign for i24 {
    fn add_assign(&mut self, rhs: i24)
        ensures
            final(self)@ == wrap24(old(self)@ + rhs@),
    {
        *self = *self + rhs;
    }
}

impl core::ops::Sub for i24 {
    type Output = i24;

    /// Wrapping subtraction.
    fn sub(self, rhs: i24) -> (r: i24)
        ensures
            r@ == wrap24(self@ - rhs@),
            r == i24::spec_from_int(self@ - rhs@),
    {
        i24::wrap_from_i64(self.to_i32() as i64 - rhs.to_i32() as i64)
    }
}

impl SubSpecImpl for i24 {
    open spec fn obeys_sub_spec() -> bool {
        true
    }

    open spec fn sub_req(self, rhs: i24) -> bool {
        true
    }

    open spec fn sub_spec(self, rhs: i24) -> i24 {
        i24::spec_from_int(self@ - rhs@)
    }
}

impl core::ops::SubAssign for i24 {
    fn sub_assign(&mut self, rhs: i24)
        ensures
            final(self)@ == wrap24(old(self)@ - rhs@),
    {
        *self = *self - rhs;
    }
}

impl core::ops::Mul for i24 {
    type Output = i24;

    /// Wrapping multiplication.
    fn mul(self, rhs: i24) -> (r: i24)
        ensures
            r@ == wrap24(self@ * rhs@),
            r == i24::spec_from_int(self@ * rhs@),
    {
        let a = self.to_i32() as i64;
        let b = rhs.to_i32() as i64;
        proof {
            lemma_view_in_range(self);
            lemma_view_in_range(rhs);
            assert(-0x4000_0000_0000 <= a * b <= 0x4000_0000_0000) by (nonlinear_arith)
                requires
                    -0x800000 <= a <= 0x7fffff,
                    -0x800000 <= b <= 0x7fffff,
            ;
        }
        i24::wrap_from_i64(a * b)
    }
}

impl MulSpecImpl for i24 {
    open spec fn obeys_mul_spec() -> bool {
        true
    }

    open spec fn mul_req(self, rhs: i24) -> bool {
        true
    }

    open spec fn mul_spec(self, rhs: i24) -> i24 {
        i24::spec_from_int(self@ * rhs@)
    }
}

impl core::ops::MulAssign for i24 {
    fn mul_assign(&mut self, rhs: i24)
        ensures
            final(self)@ == wrap24(old(self)@ * rhs@),
    {
        *self = *self * rhs;
    }
}

impl core::ops::Div for i24 {
    type Output = i24;

    /// Division rounding towards zero, wrapping on overflow (only `MIN / -1`
    /// overflows, and gives `MIN`). The divisor must not be zero.
    fn div(self, rhs: i24) -> (r: i24)
        ensures
            r@ == wrap24(trunc_div(self@, rhs@)),
            r == i24::spec_from_int(trunc_div(self@, rhs@)),
    {
        let a = self.to_i32();
        let b = rhs.to_i32();
        proof {
            lemma_view_in_range(self);
        }
        match a.checked_div(b) {
            Some(q) => i24::wrap_from_i64(q as i64),
            None => {
                proof {
                    assert(false);
                }
                i24::zero()
            },
        }
    }
}

impl DivSpecImpl for i24 {
    open spec fn obeys_div_spec() -> bool {
        true
    }

    open spec fn div_req(self, rhs: i24) -> bool {
        rhs@ != 0
    }

    open spec fn div_spec(self, rhs: i24) -> i24 {
        i24::spec_from_int(trunc_div(self@, rhs@))
    }
}

impl core::ops::DivAssign for i24 {
    fn div_assign(&mut self, rhs: i24)
        requires
            rhs@ != 0,
        ensures
            final(self)@ == wrap24(trunc_div(old(self)@, rhs@)),
    {
        *self = *self / rhs;
    }
}

impl core::ops::Rem for i24 {
    type Output = i24;

    /// Remainder of the division rounding towards zero; it has the sign of
    /// `self`. The divisor must not be zero.
    fn rem(self, rhs: i24) -> (r: i24)
        ensures
            r@ == wrap24(trunc_rem(self@, rhs@)),
            r == i24::spec_from_int(trunc_rem(self@, rhs@)),
    {
        let a = self.to_i32();
        let b = rhs.to_i32();
        proof {
            lemma_view_in_range(self);
        }
        match a.checked_rem(b) {
            Some(q) => i24::wrap_from_i64(q as i64),
            None => {
                proof {
                    assert(false);
                }
                i24::zero()
            },
        }
    }
}

impl RemSpecImpl for i24 {
    open spec fn obeys_rem_spec() -> bool {
        true
    }

    open spec fn rem_req(self, rhs: i24) -> bool {
        rhs@ != 0
    }

    open spec fn rem_spec(self, rhs: i24) -> i24 {
        i24::spec_from_int(trunc_rem(self@, rhs@))
    }
}

impl core::ops::RemAssign for i24 {
    fn rem_assign(&mut self, rhs: i24)
        requires
            rhs@ != 0,
        ensures
            final(self)@ == wrap24(trunc_rem(old(self)@, rhs@)),
    {
        *self = *self % rhs;
    }
}

impl core::ops::BitAnd for i24 {
    type Output = i24;

    /// Bitwise and of the 24-bit patterns.
    fn bitand(self, rhs: i24) -> (r: i24)
        ensures
            r@ == and24(self@, rhs@),
            r == i24::spec_from_int(and24(self@, rhs@)),
    {
        let a = self.to_bits();
        let b = rhs.to_bits();
        let bits = a & b;
        assert(bits < 0x1000000) by (bit_vector)
            requires
                a < 0x1000000u32,
                b < 0x1000000u32,
                bits == a & b,
        ;
        i24::from_bits(bits)
    }
}

impl BitAndSpecImpl for i24 {
    open spec fn obeys_bitand_spec() -> bool {
        true
    }

    open spec fn bitand_req(self, rhs: i24) -> bool {
        true
    }

    open spec fn bitand_spec(self, rhs: i24) -> i24 {
        i24::spec_from_int(and24(self@, rhs@))
    }
}

impl core::ops::BitAndAssign for i24 {
    fn bitand_assign(&mut self, rhs: i24)
        ensures
            final(self)@ == and24(old(self)@, rhs@),
    {
        *self = *self & rhs;
    }
}

impl core::ops::BitOr for i24 {
    type Output = i24;

    /// Bitwise or of the 24-bit patterns.
    fn bitor(self, rhs: i24) -> (r: i24)
        ensures
            r@ == or24(self@, rhs@),
            r == i24::spec_from_int(or24(self@, rhs@)),
    {
        let a = self.to_bits();
        let b = rhs.to_bits();
        let bits = a | b;
        assert(bits < 0x1000000) by (bit_vector)
            requires
                a < 0x1000000u32,
                b < 0x1000000u32,
                bits == a | b,
        ;
        i24::from_bits(bits)
    }
}

impl BitOrSpecImpl for i24 {
    open spec fn obeys_bitor_spec() -> bool {
        true
    }

    open spec fn bitor_req(self, rhs: i24) -> bool {
        true
    }

    open spec fn bitor_spec(self, rhs: i24) -> i24 {
        i24::spec_from_int(or24(self@, rhs@))
    }
}

impl core::ops::BitOrAssign for i24 {
    fn bitor_assign(&mut self, rhs: i24)
        ensures
            final(self)@ == or24(old(self)@, rhs@),
    {
        *self = *self | rhs;
    }
}

impl core::ops::BitXor for i24 {
    type Output = i24;

    /// Bitwise exclusive or of the 24-bit patterns.
    fn bitxor(self, rhs: i24) -> (r: i24)
        ensures
            r@ == xor24(self@, rhs@),
            r == i24::spec_from_int(xor24(self@, rhs@)),
    {
        let a = self.to_bits();
        let b = rhs.to_bits();
        let bits = a ^ b;
        assert(bits < 0x1000000) by (bit_vector)
            requires
                a < 0x1000000u32,
                b < 0x1000000u32,
                bits == a ^ b,
        ;
        i24::from_bits(bits)
    }
}

impl BitXorSpecImpl for i24 {
    open spec fn obeys_bitxor_spec() -> bool {
        true
    }

    open spec fn bitxor_req(self, rhs: i24) -> bool {
        true
    }

    open spec fn bitxor_spec(self, rhs: i24) -> i24 {
        i24::spec_from_int(xor24(self@, rhs@))
    }
}

impl core::ops::BitXorAssign for i24 {
    fn bitxor_assign(&mut self, rhs: i24)
        ensures
            final(self)@ == xor24(old(self)@, rhs@),
    {
        *self = *self ^ rhs;
    }
}

impl core::ops::Neg for i24 {
    type Output = i24;

    /// Wrapping negation: `-MIN` is `MIN`.
    fn neg(self) -> (r: i24)
        ensures
            r@ == wrap24(-self@),
            r == i24::spec_from_int(-self@),
    {
        i24::wrap_from_i64(-(self.to_i32() as i64))
    }
}

impl NegSpecImpl for i24 {
    open spec fn obeys_neg_spec() -> bool {
        true
    }

    open spec fn neg_req(self) -> bool {
        true
    }

    open spec fn neg_spec(self) -> i24 {
        i24::spec_from_int(-self@)
    }
}

impl core::ops::Not for i24 {
    type Output = i24;

    /// Bitwise complement of the 24-bit pattern.
    fn not(self) -> (r: i24)
        ensures
            r@ == not24(self@),
            r == i24::spec_from_int(not24(self@)),
    {
        let a = self.to_bits();
        let bits = !a & 0xffffff;
        assert(bits == 0xffffff - a) by (bit_vector)
            requires
                a < 0x1000000u32,
                bits == !a & 0xffffffu32,
        ;
        i24::from_bits(bits)
    }
}

impl NotSpecImpl for i24 {
    open spec fn obeys_not_spec() -> bool {
        true
    }

    open spec fn not_req(self) -> bool {
        true
    }

    open spec fn not_spec(self) -> i24 {
        i24::spec_from_int(not24(self@))
    }
}

impl core::ops::Shl<u32> for i24 {
    type Output = i24;

    /// Shift left, keeping the low 24 bits. The shift must be below 32.
    fn shl(self, rhs: u32) -> (r: i24)
        ensures
            r@ == wrap24(self@ * pow2(rhs as nat)),
            r == i24::spec_from_int(self@ * pow2(rhs as nat)),
    {
        let p = pow2_i64(rhs);
        let a = self.to_i32() as i64;
        proof {
            lemma_view_in_range(self);
            assert(-0x40_0000_0000_0000 <= a * p <= 0x40_0000_0000_0000) by (nonlinear_arith)
                requires
                    -0x800000 <= a <= 0x7fffff,
                    1 <= p <= 0x8000_0000,
            ;
        }
        i24::wrap_from_i64(a * p)
    }
}

impl ShlSpecImpl<u32> for i24 {
    open spec fn obeys_shl_spec() -> bool {
        true
    }

    open spec fn shl_req(self, rhs: u32) -> bool {
        rhs < 32
    }

    open spec fn shl_spec(self, rhs: u32) -> i24 {
        i24::spec_from_int(self@ * pow2(rhs as nat))
    }
}

impl core::ops::ShlAssign<u32> for i24 {
    fn shl_assign(&mut self, rhs: u32)
        requires
            rhs < 32,
        ensures
            final(self)@ == wrap24(old(self)@ * pow2(rhs as nat)),
    {
        *self = *self << rhs;
    }
}

impl core::ops::Shr<u32> for i24 {
    type Output = i24;

    /// Arithmetic shift right: the sign is kept, and the result is the quotient
    /// rounded down. The shift must be below 32.
    fn shr(self, rhs: u32) -> (r: i24)
        ensures
            r@ == self@ / (pow2(rhs as nat) as int),
            r == i24::spec_from_int(self@ / (pow2(rhs as nat) as int)),
    {
        let p = pow2_i64(rhs);
        let a = self.to_i32() as i64;
        proof {
            lemma_view_in_range(self);
            lemma_div_is_ordered(-0x800000, a as int, p as int);
            lemma_div_is_ordered(a as int, 0x7fffff, p as int);
            assert(-0x800000int / (p as int) >= -0x800000) by (nonlinear_arith)
                requires
                    1 <= p,
            ;
            assert(0x7fffffint / (p as int) <= 0x7fffff) by (nonlinear_arith)
                requires
                    1 <= p,
            ;
        }
        match a.checked_div_euclid(p) {
            Some(q) => {
                proof {
                    lemma_wrap24_id(q as int);
                }
                i24::wrap_from_i64(q)
            },
            None => {
                proof {
                    assert(false);
                }
                i24::zero()
            },
        }
    }
}

impl ShrSpecImpl<u32> for i24 {
    open spec fn obeys_shr_spec() -> bool {
        true
    }

    open spec fn shr_req(self, rhs: u32) -> bool {
        rhs < 32
    }

    open spec fn shr_spec(self, rhs: u32) -> i24 {
        i24::spec_from_int(self@ / (pow2(rhs as nat) as int))
    }
}

impl core::ops::ShrAssign<u32> for i24 {
    fn shr_assign(&mut self, rhs: u32)
        requires
            rhs < 32,
        ensures
            final(self)@ == old(self)@ / (pow2(rhs as nat) as int),
    {
        *self = *self >> rhs;
    }
}

} // verus!
