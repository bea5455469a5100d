//! Properties of the library as a whole, over the models that the contracts use.
use crate::numeral::{
    decimal, digits_value, lemma_decimal_numeral, lemma_nat_decimal, lemma_nat_decimal_canonical,
    nat_decimal, numeral_value, parsed_i32,
};
use crate::parse::parse_outcome_ok;
use crate::numeral::{digit_value, in_i32_range};
use crate::spec::{
    max_int, min_int, native_is_little,
    and24, be_bytes, be_value, bits24, from_bits24, in_range, lemma_bits24_range,
    lemma_wrap24_bits, lemma_wrap24_id, lemma_wrap24_range, lemma_wrap24_shift, le_bytes,
    le_value, ne_bytes, ne_value, not24, or24, swapped, trunc_div, trunc_rem, wrap24, xor24,
};
use vstd::arithmetic::div_mod::{
    lemma_add_mod_noop, lemma_fundamental_div_mod, lemma_mod_bound, lemma_mul_mod_noop,
    lemma_sub_mod_noop,
};
use vstd::arithmetic::power2::{lemma2_to64, lemma_pow2_adds, lemma_pow2_strictly_increases, pow2};
use vstd::prelude::*;

verus! {

/// Reducing to 24 bits moves a value by a multiple of 2^24.
proof fn wrap24_offset(x: int) -> (k: int)
    ensures
        wrap24(x) == x + 0x1000000 * k,
{
    lemma_fundamental_div_mod(x, 0x1000000);
    let q = x / 0x1000000;
    if bits24(x) < 0x800000 {
        -q
    } else {
        -q - 1
    }
}

/// A value in range is unchanged by reducing it to 24 bits: whenever the exact
/// result of an operation is in range, the wrapping operator gives that result,
/// and so agrees with the checked one.
pub proof fn law_wrap_exact(x: int)
    requires
        in_range(x),
    ensures
        wrap24(x) == x,
{
    lemma_wrap24_id(x);
}

/// Wrapping arithmetic on the signed values is the same as arithmetic modulo
/// 2^24 on their unsigned 24-bit patterns, for addition, subtraction and
/// multiplication.
pub proof fn law_wrapping_is_unsigned(a: int, b: int)
    ensures
        bits24(wrap24(a + b)) == (bits24(a) + bits24(b)) % 0x1000000,
        bits24(wrap24(a - b)) == (bits24(a) - bits24(b)) % 0x1000000,
        bits24(wrap24(a * b)) == (bits24(a) * bits24(b)) % 0x1000000,
{
    lemma_wrap24_bits(a + b);
    lemma_wrap24_bits(a - b);
    lemma_wrap24_bits(a * b);
    lemma_add_mod_noop(a, b, 0x1000000);
    lemma_sub_mod_noop(a, b, 0x1000000);
    lemma_mul_mod_noop(a, b, 0x1000000);
}

/// Wrapping addition is commutative and associative, 0 is its identity, and the
/// wrapping negation of a value is its inverse.
pub proof fn law_wrapping_add_group(a: int, b: int, c: int)
    requires
        in_range(a),
    ensures
        wrap24(a + b) == wrap24(b + a),
        wrap24(wrap24(a + b) + c) == wrap24(a + wrap24(b + c)),
        wrap24(a + 0) == a,
        wrap24(a + wrap24(-a)) == 0,
{
    let k1 = wrap24_offset(a + b);
    let k2 = wrap24_offset(b + c);
    lemma_wrap24_shift(a + b + c, k1);
    lemma_wrap24_shift(a + b + c, k2);
    assert(wrap24(a + b) + c == a + b + c + 0x1000000 * k1);
    assert(a + wrap24(b + c) == a + b + c + 0x1000000 * k2);
    lemma_wrap24_id(a);
    let k3 = wrap24_offset(-a);
    lemma_wrap24_shift(0, k3);
    assert(a + wrap24(-a) == 0 + 0x1000000 * k3);
    lemma_wrap24_id(0);
}

/// Wrapping multiplication is commutative and associative, and 1 is its identity.
pub proof fn law_wrapping_mul_monoid(a: int, b: int, c: int)
    requires
        in_range(a),
    ensures
        wrap24(a * b) == wrap24(b * a),
        wrap24(wrap24(a * b) * c) == wrap24(a * wrap24(b * c)),
        wrap24(a * 1) == a,
{
    let k1 = wrap24_offset(a * b);
    let k2 = wrap24_offset(b * c);
    assert(wrap24(a * b) * c == a * b * c + 0x1000000 * (k1 * c)) by (nonlinear_arith)
        requires
            wrap24(a * b) == a * b + 0x1000000 * k1,
    ;
    assert(a * wrap24(b * c) == a * b * c + 0x1000000 * (k2 * a)) by (nonlinear_arith)
        requires
            wrap24(b * c) == b * c + 0x1000000 * k2,
    ;
    lemma_wrap24_shift(a * b * c, k1 * c);
    lemma_wrap24_shift(a * b * c, k2 * a);
    assert(a * b == b * a) by (nonlinear_arith);
    lemma_wrap24_id(a);
}

/// Wrapping multiplication distributes over wrapping addition, so the values
/// of the type form a ring under the wrapping operators.
pub proof fn law_wrapping_distributive(a: int, b: int, c: int)
    ensures
        wrap24(a * wrap24(b + c)) == wrap24(wrap24(a * b) + wrap24(a * c)),
{
    let k = wrap24_offset(b + c);
    let k1 = wrap24_offset(a * b);
    let k2 = wrap24_offset(a * c);
    assert(a * wrap24(b + c) == a * b + a * c + 0x1000000 * (a * k)) by (nonlinear_arith)
        requires
            wrap24(b + c) == b + c + 0x1000000 * k,
    ;
    assert(wrap24(a * b) + wrap24(a * c) == a * b + a * c + 0x1000000 * (k1 + k2));
    lemma_wrap24_shift(a * b + a * c, a * k);
    lemma_wrap24_shift(a * b + a * c, k1 + k2);
}

/// The quotient and remainder of the division rounding towards zero make up
/// the dividend; the remainder is smaller than the divisor and has the sign of
/// the dividend.
pub proof fn law_div_rem(a: int, b: int)
    requires
        b != 0,
    ensures
        a == b * trunc_div(a, b) + trunc_rem(a, b),
        (if b > 0 {
            b
        } else {
            -b
        }) > (if trunc_rem(a, b) >= 0 {
            trunc_rem(a, b)
        } else {
            -trunc_rem(a, b)
        }),
        a >= 0 ==> trunc_rem(a, b) >= 0,
        a <= 0 ==> trunc_rem(a, b) <= 0,
{
    if a > 0 && b > 0 {
        lemma_fundamental_div_mod(a, b);
        lemma_mod_bound(a, b);
    } else if a < 0 && b < 0 {
        lemma_fundamental_div_mod(-a, -b);
        lemma_mod_bound(-a, -b);
        assert(b * ((-a) / (-b)) == -((-b) * ((-a) / (-b)))) by (nonlinear_arith);
    } else if a < 0 {
        lemma_fundamental_div_mod(-a, b);
        lemma_mod_bound(-a, b);
        assert(b * (-((-a) / b)) == -(b * ((-a) / b))) by (nonlinear_arith);
    } else if a > 0 {
        lemma_fundamental_div_mod(a, -b);
        lemma_mod_bound(a, -b);
        assert(b * (-(a / (-b))) == (-b) * (a / (-b))) by (nonlinear_arith);
    }
}

/// The bytes of a value, least significant first, read back as that value; and
/// any three bytes are the bytes of the value that they are read as.
#[verifier::spinoff_prover]
#[verifier::rlimit(40)]
pub proof fn law_le_bytes_roundtrip(v: int, b: [u8; 3])
    requires
        in_range(v),
    ensures
        le_value(le_bytes(v)) == v,
        le_bytes(le_value(b)) == b,
        in_range(le_value(b)),
{
    lemma_wrap24_id(v);
    lemma_bits24_range(v);
    let u = bits24(v);
    let bs = le_bytes(v);
    assert(bs[0] + 0x100 * bs[1] + 0x10000 * bs[2] == u);
    let w: int = b[0] + 0x100 * b[1] + 0x10000 * b[2];
    lemma_wrap24_id(from_bits24(w));
    assert(bits24(from_bits24(w)) == w);
    assert(le_bytes(le_value(b)) =~= b);
}

/// The bytes of a value, most significant first, read back as that value; and
/// any three bytes are the bytes of the value that they are read as.
#[verifier::spinoff_prover]
#[verifier::rlimit(40)]
pub proof fn law_be_bytes_roundtrip(v: int, b: [u8; 3])
    requires
        in_range(v),
    ensures
        be_value(be_bytes(v)) == v,
        be_bytes(be_value(b)) == b,
        in_range(be_value(b)),
{
    lemma_wrap24_id(v);
    lemma_bits24_range(v);
    let u = bits24(v);
    let bs = be_bytes(v);
    assert(bs[2] + 0x100 * bs[1] + 0x10000 * bs[0] == u);
    let w: int = b[2] + 0x100 * b[1] + 0x10000 * b[0];
    lemma_wrap24_id(from_bits24(w));
    assert(bits24(from_bits24(w)) == w);
    assert(be_bytes(be_value(b)) =~= b);
}

/// The bytes of a value in the machine's order read back as that value.
pub proof fn law_ne_bytes_roundtrip(v: int, b: [u8; 3])
    requires
        in_range(v),
    ensures
        ne_value(ne_bytes(v)) == v,
        ne_bytes(ne_value(b)) == b,
        in_range(ne_value(b)),
{
    law_le_bytes_roundtrip(v, b);
    law_be_bytes_roundtrip(v, b);
}

/// The big-endian bytes are the little-endian bytes in reverse order.
pub proof fn law_be_is_reversed_le(v: int)
    ensures
        be_bytes(v)[0] == le_bytes(v)[2],
        be_bytes(v)[1] == le_bytes(v)[1],
        be_bytes(v)[2] == le_bytes(v)[0],
{
}

/// Swapping the bytes twice gives the value back.
#[verifier::spinoff_prover]
#[verifier::rlimit(40)]
pub proof fn law_swap_involution(v: int)
    requires
        in_range(v),
    ensures
        swapped(swapped(v)) == v,
        in_range(swapped(v)),
{
    let b = be_bytes(v);
    let w = le_value(b);
    lemma_wrap24_id(v);
    lemma_bits24_range(v);
    let x: int = b[0] + 0x100 * b[1] + 0x10000 * b[2];
    lemma_wrap24_id(from_bits24(x));
    assert(bits24(w) == x);
    let c = be_bytes(w);
    assert(c[0] == b[2] && c[1] == b[1] && c[2] == b[0]);
    assert(le_value(c) == from_bits24(b[2] + 0x100 * b[1] + 0x10000 * b[0]));
}

/// The complement of a value is `-1 - v`, and complementing twice gives the value back.
pub proof fn law_not(v: int)
    requires
        in_range(v),
    ensures
        not24(v) == -1 - v,
        not24(not24(v)) == v,
{
    lemma_wrap24_id(v);
    lemma_wrap24_id(-1 - v);
}

/// Shifting left by 24 or more clears every bit.
pub proof fn law_shl_clears(v: int, n: nat)
    requires
        24 <= n,
    ensures
        wrap24(v * pow2(n)) == 0,
{
    lemma_pow2_adds(24, (n - 24) as nat);
    lemma2_to64();
    let k = v * pow2((n - 24) as nat);
    assert(v * pow2(n) == 0 + 0x1000000 * k) by (nonlinear_arith)
        requires
            pow2(n) == 0x1000000 * pow2((n - 24) as nat),
            k == v * pow2((n - 24) as nat),
    ;
    lemma_wrap24_shift(0, k);
    lemma_wrap24_id(0);
}

/// Shifting right by 23 or more leaves only the sign: -1 for a negative value, 0 otherwise.
pub proof fn law_shr_sign(v: int, n: nat)
    requires
        in_range(v),
        23 <= n,
    ensures
        v / (pow2(n) as int) == (if v < 0 {
            -1int
        } else {
            0int
        }),
{
    lemma2_to64();
    if n > 23 {
        lemma_pow2_strictly_increases(23, n);
    }
    let p = pow2(n) as int;
    assert(p >= 0x800000);
    if v < 0 {
        vstd::arithmetic::div_mod::lemma_fundamental_div_mod_converse(v, p, -1, v + p);
    } else {
        vstd::arithmetic::div_mod::lemma_fundamental_div_mod_converse(v, p, 0, v);
    }
}

/// The 24-bit pattern of a value in range, as a `u32`, with the value as an `i32`.
proof fn lemma_pattern_u32(a: int)
    requires
        in_range(a),
    ensures
        (a as i32) >= 0 ==> bits24(a) as u32 == (a as i32) as u32,
        (a as i32) < 0 ==> bits24(a) as u32 == ((a as i32) + 0x1000000) as u32,
        0 <= bits24(a) < 0x1000000,
{
    lemma_wrap24_id(a);
}

/// Bitwise operations on the 24-bit patterns agree with the same operations on
/// the values widened to `i32` with their sign.
pub proof fn law_bitwise_matches_i32(a: int, b: int)
    requires
        in_range(a),
        in_range(b),
    ensures
        and24(a, b) == ((a as i32) & (b as i32)) as int,
        or24(a, b) == ((a as i32) | (b as i32)) as int,
        xor24(a, b) == ((a as i32) ^ (b as i32)) as int,
        not24(a) == (!(a as i32)) as int,
{
    lemma_pattern_u32(a);
    lemma_pattern_u32(b);
    lemma_wrap24_id(a);
    let x = a as i32;
    let y = b as i32;
    let ua = bits24(a) as u32;
    let ub = bits24(b) as u32;
    let wa = ua & ub;
    let wo = ua | ub;
    let wx = ua ^ ub;
    assert({
        &&& (wa < 0x800000u32 ==> wa as i32 == x & y)
        &&& (wa >= 0x800000u32 ==> (wa as i32) - 0x1000000i32 == x & y)
        &&& (wo < 0x800000u32 ==> wo as i32 == x | y)
        &&& (wo >= 0x800000u32 ==> (wo as i32) - 0x1000000i32 == x | y)
        &&& (wx < 0x800000u32 ==> wx as i32 == x ^ y)
        &&& (wx >= 0x800000u32 ==> (wx as i32) - 0x1000000i32 == x ^ y)
        &&& wa < 0x1000000u32 && wo < 0x1000000u32 && wx < 0x1000000u32
    }) by (bit_vector)
        requires
            -0x800000i32 <= x < 0x800000i32,
            -0x800000i32 <= y < 0x800000i32,
            x >= 0 ==> ua == x as u32,
            x < 0 ==> ua == (x + 0x1000000i32) as u32,
            y >= 0 ==> ub == y as u32,
            y < 0 ==> ub == (y + 0x1000000i32) as u32,
            wa == ua & ub,
            wo == ua | ub,
            wx == ua ^ ub,
    ;
    assert(!x == -1 - x) by (bit_vector);
}

/// The range of the type is `-8,388,608 ..= 8,388,607`.
pub proof fn law_range(v: int)
    ensures
        min_int() == -8388608,
        max_int() == 8388607,
        in_range(v) <==> -8388608 <= v <= 8388607,
{
}

/// The 24-bit pattern of `x` is the number in `0 .. 2^24` that differs from `x`
/// by a multiple of 2^24, and the reduction of `x` to 24 bits is the value in
/// range that does.
pub proof fn law_wrap24_characterized(x: int)
    ensures
        0 <= bits24(x) < 0x1000000,
        (x - bits24(x)) % 0x1000000 == 0,
        in_range(wrap24(x)),
        (x - wrap24(x)) % 0x1000000 == 0,
{
    lemma_bits24_range(x);
    lemma_wrap24_range(x);
    lemma_fundamental_div_mod(x, 0x1000000);
    let q = x / 0x1000000;
    vstd::arithmetic::div_mod::lemma_mod_multiples_basic(q, 0x1000000);
    assert(x - bits24(x) == q * 0x1000000);
    if bits24(x) < 0x800000 {
        assert(x - wrap24(x) == q * 0x1000000);
    } else {
        assert(x - wrap24(x) == (q + 1) * 0x1000000);
        vstd::arithmetic::div_mod::lemma_mod_multiples_basic(q + 1, 0x1000000);
    }
}

/// The three bytes of a value, in either order, are the base-256 digits of its
/// 24-bit pattern.
pub proof fn law_bytes_are_digits(v: int)
    ensures
        le_bytes(v)[0] + 0x100 * le_bytes(v)[1] + 0x10000 * le_bytes(v)[2] == bits24(v),
        be_bytes(v)[2] + 0x100 * be_bytes(v)[1] + 0x10000 * be_bytes(v)[0] == bits24(v),
{
    lemma_bits24_range(v);
}

/// Swapping the bytes of a value reverses its three bytes: the least significant
/// byte of the result is the most significant byte of the value, and so on.
#[verifier::spinoff_prover]
#[verifier::rlimit(40)]
pub proof fn law_swap_reverses(v: int)
    requires
        in_range(v),
    ensures
        in_range(swapped(v)),
        le_bytes(swapped(v))[0] == le_bytes(v)[2],
        le_bytes(swapped(v))[1] == le_bytes(v)[1],
        le_bytes(swapped(v))[2] == le_bytes(v)[0],
        bits24(swapped(v)) == (bits24(v) % 0x100) * 0x10000 + ((bits24(v) / 0x100) % 0x100)
            * 0x100 + bits24(v) / 0x10000,
{
    lemma_bits24_range(v);
    let u = bits24(v);
    let b = be_bytes(v);
    let x: int = b[0] + 0x100 * b[1] + 0x10000 * b[2];
    assert(x == (u % 0x100) * 0x10000 + ((u / 0x100) % 0x100) * 0x100 + u / 0x10000);
    lemma_wrap24_id(from_bits24(x));
    assert(bits24(swapped(v)) == x);
}

/// The bytes in the machine's own order are the little-endian bytes on a
/// little-endian machine and the big-endian bytes on any other.
pub proof fn law_native_order(v: int, b: [u8; 3])
    ensures
        native_is_little() <==> (vstd::endian::endianness() is Little),
        native_is_little() ==> ne_bytes(v) == le_bytes(v) && ne_value(b) == le_value(b),
        !native_is_little() ==> ne_bytes(v) == be_bytes(v) && ne_value(b) == be_value(b),
{
}

/// The decimal form of a value is its canonical one: a `-` only before a negative
/// value, then the digits `0-9` of its magnitude, with no leading zero.
pub proof fn law_decimal_canonical(v: int)
    ensures
        decimal(v).len() > 0,
        (decimal(v)[0] == '-') <==> v < 0,
        v < 0 ==> decimal(v).len() >= 2,
        forall|i: int|
            (if v < 0 {
                1int
            } else {
                0int
            }) <= i < decimal(v).len() ==> 48 <= #[trigger] (decimal(v)[i] as int) <= 57,
        v != 0 ==> decimal(v)[if v < 0 {
            1int
        } else {
            0int
        }] != '0',
        digits_value(
            decimal(v).subrange(
                if v < 0 {
                    1int
                } else {
                    0int
                },
                decimal(v).len() as int,
            ),
            10,
        ) == (if v < 0 {
            -v
        } else {
            v
        }),
{
    let m: nat = if v < 0 {
        (-v) as nat
    } else {
        v as nat
    };
    lemma_nat_decimal_canonical(m);
    lemma_nat_decimal(m);
    let d = nat_decimal(m);
    let s = decimal(v);
    if v < 0 {
        assert(s.subrange(1, s.len() as int) =~= d);
        assert forall|i: int| 1 <= i < s.len() implies 48 <= #[trigger] (s[i] as int) <= 57 by {
            assert(s[i] == d[i - 1]);
        }
        assert(s[1] == d[0]);
    } else {
        assert(s.subrange(0, s.len() as int) =~= d);
        assert(d[0] as int >= 48);
    }
}

/// A character is a digit of value 0-9, 10-35 or none: `0-9` stand for 0 to 9,
/// `a-z` and `A-Z` for 10 to 35, and any other character is a digit in no radix.
pub proof fn law_digit_value(c: char)
    ensures
        '0' <= c <= '9' ==> digit_value(c) == c as int - '0' as int,
        'a' <= c <= 'z' ==> digit_value(c) == c as int - 'a' as int + 10,
        'A' <= c <= 'Z' ==> digit_value(c) == c as int - 'A' as int + 10,
        !('0' <= c <= '9' || 'a' <= c <= 'z' || 'A' <= c <= 'Z') ==> digit_value(c) >= 36,
{
}

/// Reading an `i32` gives the value of a numeral exactly when an `i32` can hold
/// it, and reading an `i24` succeeds exactly when that value is in the range of
/// an `i24`.
pub proof fn law_parse_outcome(s: Seq<char>, radix: int, n: int)
    ensures
        parsed_i32(s, radix) == Some(n) <==> (numeral_value(s, radix) == Some(n) && i32::MIN <= n
            <= i32::MAX),
        parsed_i32(s, radix) is None <==> (numeral_value(s, radix) is None || !in_i32_range(
            numeral_value(s, radix)->0,
        )),
        parse_outcome_ok(s, radix) <==> (parsed_i32(s, radix) is Some && -8388608 <= parsed_i32(
            s,
            radix,
        )->0 <= 8388607),
{
}

/// The decimal form of a value reads back, in radix 10, as that value.
pub proof fn law_decimal_roundtrip(v: int)
    requires
        in_range(v),
    ensures
        parsed_i32(decimal(v), 10) == Some(v),
        parse_outcome_ok(decimal(v), 10),
{
    lemma_decimal_numeral(v);
}

} // verus!
