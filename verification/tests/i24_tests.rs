use ::i24::{i24, ParseI24Error};

fn v(n: i32) -> i24 {
    i24::from_i32(n).unwrap()
}

#[test]
fn test_arithmetic_operations() {
    let a = v(100);
    let b = v(50);

    assert_eq!((a + b).to_i32(), 150);
    assert_eq!((a - b).to_i32(), 50);
    assert_eq!((a * b).to_i32(), 5000);
    assert_eq!((a / b).to_i32(), 2);
    assert_eq!((a % b).to_i32(), 0);
}

#[test]
fn test_negative_operations() {
    let a = v(100);
    let b = v(-50);

    assert_eq!((a + b).to_i32(), 50);
    assert_eq!((a - b).to_i32(), 150);
    assert_eq!((a * b).to_i32(), -5000);
    assert_eq!((a / b).to_i32(), -2);
}

#[test]
fn test_bitwise_operations() {
    let a = v(0b101010);
    let b = v(0b110011);

    assert_eq!((a & b).to_i32(), 0b100010);
    assert_eq!((a | b).to_i32(), 0b111011);
    assert_eq!((a ^ b).to_i32(), 0b011001);
    assert_eq!((a << 2).to_i32(), 0b10101000);
    assert_eq!((a >> 2).to_i32(), 0b1010);
}

#[test]
fn test_checked_addition() {
    assert_eq!(v(10).checked_add(v(20)), Some(v(30)));
    assert_eq!(v(10).checked_add(v(-20)), Some(v(-10)));
    // Overflow cases
    assert_eq!(i24::max_value().checked_add(i24::one()), None);
    assert_eq!(
        (i24::max_value() - i24::one()).checked_add(i24::one() * v(2)),
        None
    );
}

#[test]
fn test_checked_subtraction() {
    assert_eq!(v(10).checked_sub(v(20)), Some(v(-10)));
    assert_eq!(v(10).checked_sub(v(-20)), Some(v(30)));

    // Overflow cases
    assert_eq!(i24::min_value().checked_sub(i24::one()), None);
    assert_eq!(
        (i24::min_value() + i24::one()).checked_sub(i24::one() * v(2)),
        None
    );
}

#[test]
fn test_checked_division() {
    assert_eq!(v(20).checked_div(v(5)), Some(v(4)));
    assert_eq!(v(20).checked_div(v(0)), None);
}

#[test]
fn test_checked_multiplication() {
    assert_eq!(v(5).checked_mul(v(6)), Some(v(30)));
    assert_eq!(i24::max_value().checked_mul(v(2)), None);
}

#[test]
fn test_checked_remainder() {
    assert_eq!(v(20).checked_rem(v(5)), Some(v(0)));
    assert_eq!(v(20).checked_rem(v(0)), None);
}

#[test]
fn test_unary_operations() {
    let a = v(100);

    assert_eq!((-a).to_i32(), -100);
    assert_eq!((!a).to_i32(), -101);
}

#[test]
fn test_from_i32() {
    assert_eq!(v(0).to_i32(), 0);
    assert_eq!(v(8388607).to_i32(), 8388607); // Max positive value
    assert_eq!(v(-8388608).to_i32(), -8388608); // Min negative value
}

#[test]
fn test_from_bytes() {
    assert_eq!(i24::from_ne_bytes([0x01, 0x02, 0x03]).to_i32(), 0x030201);
    assert_eq!(i24::from_le_bytes([0x01, 0x02, 0x03]).to_i32(), 0x030201);
    assert_eq!(i24::from_be_bytes([0x01, 0x02, 0x03]).to_i32(), 0x010203);
}

#[test]
fn test_to_i32() {
    let a = i24::from_ne_bytes([0xFF, 0xFF, 0x7F]);
    assert_eq!(a.to_i32(), 8388607); // Max positive value

    let b = i24::from_le_bytes([0x00, 0x00, 0x80]);
    assert_eq!(b.to_i32(), -8388608); // Min negative value
}

#[test]
fn test_zero_and_one() {
    assert_eq!(i24::zero().to_i32(), 0);
    assert_eq!(i24::one().to_i32(), 1);
}

#[test]
fn test_from_str() {
    assert_eq!(i24::from_str("100").unwrap().to_i32(), 100);
    assert_eq!(i24::from_str("-100").unwrap().to_i32(), -100);
    assert_eq!(
        i24::from_str(&i24::max_value().to_string()).unwrap().to_i32(),
        i24::max_value().to_i32()
    );
    assert_eq!(
        i24::from_str(&i24::min_value().to_string()).unwrap().to_i32(),
        i24::min_value().to_i32()
    );
    assert_eq!(
        i24::from_str("8388608").unwrap_err(),
        ParseI24Error::OutOfRange
    );
    assert_eq!(
        i24::from_str("-8388609").unwrap_err(),
        ParseI24Error::OutOfRange
    );
}

#[test]
fn test_display() {
    assert_eq!(v(100).to_string(), "100");
    assert_eq!(v(-100).to_string(), "-100");
}

#[test]
fn test_wrapping_behavior() {
    assert_eq!(i24::max_value() + i24::one(), i24::min_value());
    assert_eq!(
        i24::max_value() + i24::one() + i24::one(),
        i24::min_value() + i24::one()
    );

    assert_eq!(i24::min_value() - i24::one(), i24::max_value());
    assert_eq!(
        i24::min_value() - (i24::one() + i24::one()),
        i24::max_value() - i24::one()
    );

    assert_eq!(-i24::min_value(), i24::min_value())
}

#[test]
fn test_shift_operations() {
    let a = v(0b1);

    // Left shift
    assert_eq!((a << 23).to_i32(), -8388608); // 0x800000, which is the minimum negative value
    assert_eq!((a << 24).to_i32(), 0); // Shifts out all bits

    // Right shift
    let b = v(-1); // All bits set
    assert_eq!((b >> 1).to_i32(), -1); // Sign extension
    assert_eq!((b >> 23).to_i32(), -1); // Still all bits set due to sign extension
    assert_eq!((b >> 24).to_i32(), -1); // No change after 23 bits

    // Edge case: maximum positive value
    let c = v(0x7FFFFF); // 8388607
    assert_eq!((c << 1).to_i32(), -2); // 0xFFFFFE in 24-bit, which is -2 when sign-extended

    // Edge case: minimum negative value
    let d = i24::min_value(); // (-0x800000)
    assert_eq!((d >> 1).to_i32(), -0x400000);
    assert_eq!((d >> 2).to_i32(), -0x200000);
    assert_eq!((d >> 3).to_i32(), -0x100000);
    assert_eq!((d >> 4).to_i32(), -0x080000);

    // Additional test for left shift wrapping
    assert_eq!((c << 1).to_i32(), -2); // 0xFFFFFE
    assert_eq!((c << 2).to_i32(), -4); // 0xFFFFFC
    assert_eq!((c << 3).to_i32(), -8); // 0xFFFFF8
}
