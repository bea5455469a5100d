//! The mathematical model of a 24-bit two's-complement integer: its range,
//! its 24-bit pattern, its bytes in either order, and the lemmas that tie
//! them together.
use vstd::arithmetic::div_mod::*;
use vstd::endian::endianness;
use vstd::prelude::*;

verus! {

/// The smallest value of the type: -2^23.
pub open spec fn min_int() -> int {
    -0x800000
}

/// The largest value of the type: 2^23 - 1.
pub open spec fn max_int() -> int {
    0x7fffff
}

/// Whether `v` can be held by a 24-bit signed integer.
pub open spec fn in_range(v: int) -> bool {
    min_int() <= v <= max_int()
}

/// The 24-bit two's-complement pattern of `v`, as a number in `0 .. 2^24`.
pub open spec fn bits24(v: int) -> int {
    v % 0x1000000
}

/// The signed value that a 24-bit pattern `u` (in `0 .. 2^24`) stands for.
pub open spec fn from_bits24(u: int) -> int {
    if u < 0x800000 {
        u
    } else {
        u - 0x1000000
    }
}

/// `x` reduced to 24 bits: the value with the same low 24 bits as `x`.
pub open spec fn wrap24(x: int) -> int {
    from_bits24(bits24(x))
}

/// The three bytes of `v`, least significant first.
pub open spec fn le_bytes(v: int) -> [u8; 3] {
    let u = bits24(v);
    [(u % 0x100) as u8, ((u / 0x100) % 0x100) as u8, (u / 0x10000) as u8]
}

/// The three bytes of `v`, most significant first.
pub open spec fn be_bytes(v: int) -> [u8; 3] {
    let u = bits24(v);
    [(u / 0x10000) as u8, ((u / 0x100) % 0x100) as u8, (u % 0x100) as u8]
}

/// The value whose bytes, least significant first, are `b`.
pub open spec fn le_value(b: [u8; 3]) -> int {
    from_bits24(b[0] + 0x100 * b[1] + 0x10000 * b[2])
}

/// The value whose bytes, most significant first, are `b`.
pub open spec fn be_value(b: [u8; 3]) -> int {
    from_bits24(b[2] + 0x100 * b[1] + 0x10000 * b[0])
}

/// The value whose bytes are those of `v` in reverse order.
pub open spec fn swapped(v: int) -> int {
    le_value(be_bytes(v))
}

/// Whether the machine that runs the code stores the least significant byte first.
pub open spec fn native_is_little() -> bool {
    endianness() is Little
}

/// The bytes of `v` in the machine's own order.
pub open spec fn ne_bytes(v: int) -> [u8; 3] {
    if native_is_little() {
        le_bytes(v)
    } else {
        be_bytes(v)
    }
}

/// The value whose bytes, in the machine's own order, are `b`.
pub open spec fn ne_value(b: [u8; 3]) -> int {
    if native_is_little() {
        le_value(b)
    } else {
        be_value(b)
    }
}

/// Bitwise and of the 24-bit patterns of `a` and `b`, read back as a value.
pub open spec fn and24(a: int, b: int) -> int {
    from_bits24(((bits24(a) as u32) & (bits24(b) as u32)) as int)
}

/// Bitwise or of the 24-bit patterns of `a` and `b`, read back as a value.
pub open spec fn or24(a: int, b: int) -> int {
    from_bits24(((bits24(a) as u32) | (bits24(b) as u32)) as int)
}

/// Bitwise exclusive or of the 24-bit patterns of `a` and `b`, read back as a value.
pub open spec fn xor24(a: int, b: int) -> int {
    from_bits24(((bits24(a) as u32) ^ (bits24(b) as u32)) as int)
}

/// Bitwise complement of the 24-bit pattern of `a`, read back as a value.
pub open spec fn not24(a: int) -> int {
    from_bits24(0xffffff - bits24(a))
}

/// Integer division that rounds towards zero, as Rust's `/` on integers does.
pub open spec fn trunc_div(a: int, b: int) -> int {
    if a == 0 {
        0
    } else if a > 0 && b > 0 {
        a / b
    } else if a < 0 && b < 0 {
        (-a) / (-b)
    } else if a < 0 {
        -((-a) / b)
    } else {
        -(a / (-b))
    }
}

/// The remainder that goes with `trunc_div`: it has the sign of `a`.
pub open spec fn trunc_rem(a: int, b: int) -> int {
    if a == 0 {
        0
    } else if a > 0 && b > 0 {
        a % b
    } else if a < 0 && b < 0 {
        -((-a) % (-b))
    } else if a < 0 {
        -((-a) % b)
    } else {
        a % (-b)
    }
}

/// The 24-bit pattern of a value is in `0 .. 2^24`.
pub proof fn lemma_bits24_range(v: int)
    ensures
        0 <= bits24(v) < 0x1000000,
{
    lemma_mod_bound(v, 0x1000000);
}

/// Reducing to 24 bits always gives a value in range.
pub proof fn lemma_wrap24_range(x: int)
    ensures
        in_range(wrap24(x)),
{
    lemma_bits24_range(x);
}

/// A value in range is its own reduction, and its pattern reads back as itself.
pub proof fn lemma_wrap24_id(v: int)
    requires
        in_range(v),
    ensures
        wrap24(v) == v,
        bits24(v) == (if v >= 0 {
            v
        } else {
            v + 0x1000000
        }),
{
    if v >= 0 {
        lemma_small_mod(v as nat, 0x1000000);
    } else {
        lemma_fundamental_div_mod_converse(v, 0x1000000, -1, v + 0x1000000);
    }
}

/// Adding a multiple of 2^24 does not change the reduction.
pub proof fn lemma_wrap24_shift(x: int, k: int)
    ensures
        bits24(x + 0x1000000 * k) == bits24(x),
        wrap24(x + 0x1000000 * k) == wrap24(x),
{
    lemma_mod_multiples_vanish(k, x, 0x1000000);
}

/// Two values with the same reduction have the same 24-bit pattern.
pub proof fn lemma_wrap24_bits(x: int)
    ensures
        bits24(wrap24(x)) == bits24(x),
        wrap24(wrap24(x)) == wrap24(x),
{
    lemma_bits24_range(x);
    lemma_wrap24_range(x);
    lemma_wrap24_id(wrap24(x));
}

} // verus!
