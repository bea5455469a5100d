//! The 24-bit signed integer type, its conversions and its checked arithmetic.
use crate::spec::{
    bits24, from_bits24, in_range, lemma_bits24_range, lemma_wrap24_bits, lemma_wrap24_id,
    lemma_wrap24_range, lemma_wrap24_shift, max_int, min_int, native_is_little, wrap24,
    be_bytes, be_value, le_bytes, le_value, ne_bytes, ne_value, swapped, trunc_div, trunc_rem,
};
use vstd::prelude::*;

verus! {

/// A 24-bit signed integer, in `-2^23 ..= 2^23 - 1`.
///
/// Arithmetic through the operators wraps around on overflow, as two's-complement
/// integers do; the `checked_*` methods report overflow instead.
#[derive(Clone, Copy, Eq, Ord, Hash, Debug)]
pub struct i24 {
    value: i32,
}

impl View for i24 {
    type V = int;

    /// The integer that this value stands for.
    closed spec fn view(&self) -> int {
        wrap24(self.value as int)
    }
}

/// Every `i24` stands for an integer in range.
pub broadcast proof fn lemma_view_in_range(x: i24)
    ensures
        #[trigger] in_range(x@),
{
    lemma_wrap24_range(x.value as int);
}

/// Calls `u16::from_ne_bytes`, which reads two bytes in the order of the machine
/// that runs the code. The contract claims that it reads them least significant
/// first when vstd's `endianness()` (the endianness of the executing hardware,
/// the same for every call) is little, and most significant first otherwise.
#[verifier::external_body]
fn u16_from_ne_bytes(bytes: [u8; 2]) -> (r: u16)
    ensures
        r == (if native_is_little() {
            bytes[0] + 0x100 * bytes[1]
        } else {
            0x100 * bytes[0] + bytes[1]
        }),
{
    u16::from_ne_bytes(bytes)
}

/// Whether the machine stores the least significant byte first.
fn target_is_little_endian() -> (r: bool)
    ensures
        r == native_is_little(),
{
    let probe = u16_from_ne_bytes([1u8, 0u8]);
    probe == 1
}

impl i24 {
    #[verifier::type_invariant]
    spec fn inv(self) -> bool {
        -0x800000 <= self.value < 0x800000
    }

    /// The spec-level value of the type that stands for `v`, reduced to 24 bits.
    pub closed spec fn spec_from_int(v: int) -> i24 {
        i24 { value: wrap24(v) as i32 }
    }

    /// The value of `spec_from_int(v)` is `v` reduced to 24 bits.
    pub broadcast proof fn lemma_spec_from_int(v: int)
        ensures
            (#[trigger] i24::spec_from_int(v))@ == wrap24(v),
    {
        lemma_wrap24_range(v);
        lemma_wrap24_bits(v);
    }

    proof fn lemma_value(self)
        requires
            -0x800000 <= self.value < 0x800000,
        ensures
            self@ == self.value,
    {
        lemma_wrap24_id(self.value as int);
    }

    /// Two `i24`s are the same value exactly when they stand for the same integer.
    pub fn same_value_same_i24(a: &i24, b: &i24)
        ensures
            (a@ == b@) <==> (*a == *b),
    {
        proof {
            use_type_invariant(a);
            use_type_invariant(b);
            a.lemma_value();
            b.lemma_value();
        }
    }

    /// The size of this integer type in bits.
    pub const BITS: u32 = 24;

    fn from_value(v: i32) -> (r: i24)
        requires
            in_range(v as int),
        ensures
            r@ == v,
            r == i24::spec_from_int(v as int),
    {
        let r = i24 { value: v };
        proof {
            r.lemma_value();
            lemma_wrap24_id(v as int);
        }
        r
    }

    /// The value with the same low 24 bits as `x`.
    pub(crate) fn wrap_from_i64(x: i64) -> (r: i24)
        requires
            -0x4000_0000_0000_0000 < x < 0x4000_0000_0000_0000,
        ensures
            r@ == wrap24(x as int),
            r == i24::spec_from_int(x as int),
    {
        let y: i64 = x + 0x4000_0000_0000_0000;
        let u: u64 = (y as u64) % 0x1000000;
        proof {
            lemma_wrap24_shift(x as int, 0x40_0000_0000);
            assert(u == bits24(x as int));
            lemma_bits24_range(x as int);
        }
        let v: i32 = if u < 0x800000 {
            u as i32
        } else {
            (u as i32) - 0x1000000
        };
        proof {
            lemma_wrap24_range(x as int);
            lemma_wrap24_bits(x as int);
        }
        Self::from_value(v)
    }

    /// The 24-bit pattern of this value, with the most significant byte zero.
    pub fn to_bits(self) -> (r: u32)
        ensures
            r == bits24(self@),
            r < 0x1000000,
    {
        proof {
            use_type_invariant(&self);
            self.lemma_value();
            lemma_wrap24_id(self.value as int);
        }
        if self.value >= 0 {
            self.value as u32
        } else {
            (self.value + 0x1000000) as u32
        }
    }

    /// The value whose 24-bit pattern is `bits`.
    pub(crate) fn from_bits(bits: u32) -> (r: i24)
        requires
            bits < 0x1000000,
        ensures
            r@ == from_bits24(bits as int),
            r == i24::spec_from_int(from_bits24(bits as int)),
    {
        let v: i32 = if bits < 0x800000 {
            bits as i32
        } else {
            (bits as i32) - 0x1000000
        };
        Self::from_value(v)
    }

    /// Converts the 24-bit integer to a 32-bit signed integer, extending the sign.
    pub fn to_i32(self) -> (r: i32)
        ensures
            r == self@,
    {
        proof {
            use_type_invariant(&self);
            self.lemma_value();
        }
        self.value
    }

    /// Creates an `i24` from a 32-bit signed integer: `Some` exactly when it is in range.
    pub fn from_i32(n: i32) -> (r: Option<i24>)
        ensures
            r is Some <==> in_range(n as int),
            r is Some ==> r->0@ == n,
    {
        if -0x800000 <= n && n <= 0x7fffff {
            Some(Self::from_value(n))
        } else {
            None
        }
    }

    /// Creates an `i24` from the low 24 bits of a 32-bit signed integer.
    pub fn wrapping_from_i32(n: i32) -> (r: i24)
        ensures
            r@ == wrap24(n as int),
    {
        Self::wrap_from_i64(n as i64)
    }

    /// The smallest value, -2^23.
    pub fn min_value() -> (r: i24)
        ensures
            r@ == min_int(),
    {
        Self::from_value(-0x800000)
    }

    /// The largest value, 2^23 - 1.
    pub fn max_value() -> (r: i24)
        ensures
            r@ == max_int(),
    {
        Self::from_value(0x7fffff)
    }

    /// The value 0.
    pub fn zero() -> (r: i24)
        ensures
            r@ == 0,
    {
        Self::from_value(0)
    }

    /// The value 1.
    pub fn one() -> (r: i24)
        ensures
            r@ == 1,
    {
        Self::from_value(1)
    }

    /// Whether this value is 0.
    pub fn is_zero(&self) -> (r: bool)
        ensures
            r == (self@ == 0),
    {
        proof {
            use_type_invariant(self);
            self.lemma_value();
        }
        self.value == 0
    }
    /// Reverses the byte order of the integer.
    pub fn swap_bytes(self) -> (r: i24)
        ensures
            r@ == swapped(self@),
    {
        Self::from_le_bytes(self.to_be_bytes())
    }

    /// Converts to little endian from the machine's order: unchanged on a
    /// little-endian machine, bytes swapped otherwise.
    pub fn to_le(self) -> (r: i24)
        ensures
            r@ == (if native_is_little() {
                self@
            } else {
                swapped(self@)
            }),
    {
        if target_is_little_endian() {
            self
        } else {
            self.swap_bytes()
        }
    }

    /// Converts to big endian from the machine's order: unchanged on a
    /// big-endian machine, bytes swapped otherwise.
    pub fn to_be(self) -> (r: i24)
        ensures
            r@ == (if native_is_little() {
                swapped(self@)
            } else {
                self@
            }),
    {
        if target_is_little_endian() {
            self.swap_bytes()
        } else {
            self
        }
    }

    /// The bytes of this integer in the machine's own order.
    pub fn to_ne_bytes(self) -> (r: [u8; 3])
        ensures
            r == ne_bytes(self@),
    {
        if target_is_little_endian() {
            self.to_le_bytes()
        } else {
            self.to_be_bytes()
        }
    }

    /// The bytes of this integer, least significant first.
    pub fn to_le_bytes(self) -> (r: [u8; 3])
        ensures
            r == le_bytes(self@),
    {
        let bits = self.to_bits();
        let r = [(bits % 0x100) as u8, ((bits / 0x100) % 0x100) as u8, (bits / 0x10000) as u8];
        assert(r@ =~= le_bytes(self@)@);
        r
    }

    /// The bytes of this integer, most significant first.
    pub fn to_be_bytes(self) -> (r: [u8; 3])
        ensures
            r == be_bytes(self@),
    {
        let bits = self.to_bits();
        let r = [(bits / 0x10000) as u8, ((bits / 0x100) % 0x100) as u8, (bits % 0x100) as u8];
        assert(r@ =~= be_bytes(self@)@);
        r
    }

    /// Creates an `i24` from three bytes in the machine's own order.
    pub fn from_ne_bytes(bytes: [u8; 3]) -> (r: i24)
        ensures
            r@ == ne_value(bytes),
    {
        if target_is_little_endian() {
            Self::from_le_bytes(bytes)
        } else {
            Self::from_be_bytes(bytes)
        }
    }

    /// Creates an `i24` from three bytes, least significant first.
    pub fn from_le_bytes(bytes: [u8; 3]) -> (r: i24)
        ensures
            r@ == le_value(bytes),
    {
        let bits: u32 = bytes[0] as u32 + 0x100 * (bytes[1] as u32) + 0x10000 * (bytes[2] as u32);
        Self::from_bits(bits)
    }

    /// Creates an `i24` from three bytes, most significant first.
    pub fn from_be_bytes(bytes: [u8; 3]) -> (r: i24)
        ensures
            r@ == be_value(bytes),
    {
        let bits: u32 = bytes[2] as u32 + 0x100 * (bytes[1] as u32) + 0x10000 * (bytes[0] as u32);
        Self::from_bits(bits)
    }

    /// Checked addition: `None` when the sum is out of range.
    pub fn checked_add(self, other: i24) -> (r: Option<i24>)
        ensures
            r is Some <==> in_range(self@ + other@),
            r is Some ==> r->0@ == self@ + other@,
    {
        match self.to_i32().checked_add(other.to_i32()) {
            Some(s) => Self::from_i32(s),
            None => None,
        }
    }

    /// Checked subtraction: `None` when the difference is out of range.
    pub fn checked_sub(self, other: i24) -> (r: Option<i24>)
        ensures
            r is Some <==> in_range(self@ - other@),
            r is Some ==> r->0@ == self@ - other@,
    {
        match self.to_i32().checked_sub(other.to_i32()) {
            Some(s) => Self::from_i32(s),
            None => None,
        }
    }

    /// Checked multiplication: `None` when the product is out of range.
    pub fn checked_mul(self, other: i24) -> (r: Option<i24>)
        ensures
            r is Some <==> in_range(self@ * other@),
            r is Some ==> r->0@ == self@ * other@,
    {
        match self.to_i32().checked_mul(other.to_i32()) {
            Some(s) => Self::from_i32(s),
            None => None,
        }
    }

    /// Checked division, rounding towards zero: `None` when the divisor is zero
    /// or the quotient is out of range.
    pub fn checked_div(self, other: i24) -> (r: Option<i24>)
        ensures
            r is Some <==> other@ != 0 && in_range(trunc_div(self@, other@)),
            r is Some ==> r->0@ == trunc_div(self@, other@),
    {
        match self.to_i32().checked_div(other.to_i32()) {
            Some(q) => Self::from_i32(q),
            None => None,
        }
    }

    /// Checked remainder of the division rounding towards zero: `None` when the
    /// divisor is zero or the division overflows, which it does only for
    /// `MIN` divided by `-1`.
    pub fn checked_rem(self, other: i24) -> (r: Option<i24>)
        ensures
            r is Some <==> other@ != 0 && !(self@ == min_int() && other@ == -1),
            r is Some ==> r->0@ == trunc_rem(self@, other@),
    {
        let a = self.to_i32();
        let b = other.to_i32();
        if a == -0x800000 && b == -1 {
            return None;
        }
        match a.checked_rem(b) {
            Some(q) => Self::from_i32(q),
            None => None,
        }
    }
}

impl Default for i24 {
    /// The value 0.
    fn default() -> (r: i24)
        ensures
            r@ == 0,
    {
        i24::zero()
    }
}

} // verus!
