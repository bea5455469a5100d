use ::i24::{i24, ParseI24Error};
use std::str::FromStr;

fn v(n: i32) -> i24 {
    i24::from_i32(n).unwrap()
}

#[test]
fn from_i32_rejects_out_of_range() {
    assert!(i24::from_i32(8388608).is_none());
    assert!(i24::from_i32(-8388609).is_none());
    assert!(i24::from_i32(i32::MAX).is_none());
    assert_eq!(i24::from_i32(-8388608).unwrap(), i24::min_value());
    assert_eq!(i24::from_i32(8388607).unwrap(), i24::max_value());
}

#[test]
fn i32_roundtrip_on_samples() {
    for n in [-8388608, -65536, -256, -1, 0, 1, 255, 65535, 8388607] {
        assert_eq!(i24::from_i32(n).unwrap().to_i32(), n);
        assert_eq!(i24::wrapping_from_i32(n).to_i32(), n);
    }
}

#[test]
fn wrapping_from_i32_keeps_low_bits() {
    assert_eq!(i24::wrapping_from_i32(0x800000).to_i32(), -0x800000);
    assert_eq!(i24::wrapping_from_i32(0x1000000).to_i32(), 0);
    assert_eq!(i24::wrapping_from_i32(0x1234567).to_i32(), 0x234567);
    assert_eq!(i24::wrapping_from_i32(-0x800001).to_i32(), 0x7fffff);
    assert_eq!(i24::wrapping_from_i32(i32::MIN).to_i32(), 0);
}

#[test]
fn byte_roundtrips() {
    for n in [-8388608, -123456, -1, 0, 1, 0x123456, 8388607] {
        let x = v(n);
        assert_eq!(i24::from_le_bytes(x.to_le_bytes()), x);
        assert_eq!(i24::from_be_bytes(x.to_be_bytes()), x);
        assert_eq!(i24::from_ne_bytes(x.to_ne_bytes()), x);
        let le = x.to_le_bytes();
        assert_eq!(x.to_be_bytes(), [le[2], le[1], le[0]]);
    }
    for b in [[0u8, 0, 0], [0xff, 0xff, 0xff], [0x12, 0x34, 0x56], [0, 0, 0x80]] {
        assert_eq!(i24::from_le_bytes(b).to_le_bytes(), b);
        assert_eq!(i24::from_be_bytes(b).to_be_bytes(), b);
    }
}

#[test]
fn byte_values() {
    assert_eq!(v(0x123456).to_le_bytes(), [0x56, 0x34, 0x12]);
    assert_eq!(v(0x123456).to_be_bytes(), [0x12, 0x34, 0x56]);
    assert_eq!(v(-1).to_le_bytes(), [0xff, 0xff, 0xff]);
    assert_eq!(v(-2).to_be_bytes(), [0xff, 0xff, 0xfe]);
    assert_eq!(i24::min_value().to_le_bytes(), [0, 0, 0x80]);
}

#[test]
fn native_order_matches_the_machine() {
    let x = v(0x123456);
    if u16::from_ne_bytes([1, 0]) == 1 {
        assert_eq!(x.to_ne_bytes(), x.to_le_bytes());
        assert_eq!(x.to_le(), x);
        assert_eq!(x.to_be(), x.swap_bytes());
    } else {
        assert_eq!(x.to_ne_bytes(), x.to_be_bytes());
        assert_eq!(x.to_be(), x);
        assert_eq!(x.to_le(), x.swap_bytes());
    }
}

#[test]
fn swap_bytes_values() {
    assert_eq!(v(0x123456).swap_bytes().to_i32(), 0x563412);
    assert_eq!(v(0x000080).swap_bytes().to_i32(), -0x800000);
    for n in [-8388608, -5, 0, 7, 0x123456] {
        assert_eq!(v(n).swap_bytes().swap_bytes(), v(n));
    }
}

#[test]
fn wrapping_arithmetic_edges() {
    assert_eq!((i24::max_value() * v(2)).to_i32(), -2);
    assert_eq!((i24::min_value() * v(-1)), i24::min_value());
    assert_eq!((i24::min_value() / v(-1)), i24::min_value());
    assert_eq!((i24::min_value() % v(-1)).to_i32(), 0);
    assert_eq!((v(4096) * v(4096)).to_i32(), 0);
    assert_eq!((v(-7) / v(2)).to_i32(), -3);
    assert_eq!((v(-7) % v(2)).to_i32(), -1);
    assert_eq!((v(7) % v(-2)).to_i32(), 1);
    assert_eq!((-v(0)).to_i32(), 0);
}

#[test]
fn assign_operators() {
    let mut x = v(10);
    x += v(5);
    assert_eq!(x.to_i32(), 15);
    x -= v(20);
    assert_eq!(x.to_i32(), -5);
    x *= v(3);
    assert_eq!(x.to_i32(), -15);
    x /= v(4);
    assert_eq!(x.to_i32(), -3);
    x %= v(2);
    assert_eq!(x.to_i32(), -1);
    x &= v(0xff);
    assert_eq!(x.to_i32(), 0xff);
    x |= v(0x100);
    assert_eq!(x.to_i32(), 0x1ff);
    x ^= v(0x0ff);
    assert_eq!(x.to_i32(), 0x100);
    x <<= 4;
    assert_eq!(x.to_i32(), 0x1000);
    x >>= 8;
    assert_eq!(x.to_i32(), 0x10);
}

#[test]
fn add_group_laws_on_samples() {
    let samples = [-8388608, -1000, -1, 0, 1, 12345, 8388607];
    for a in samples {
        for b in samples {
            assert_eq!(v(a) + v(b), v(b) + v(a));
            for c in samples {
                assert_eq!((v(a) + v(b)) + v(c), v(a) + (v(b) + v(c)));
                assert_eq!((v(a) * v(b)) * v(c), v(a) * (v(b) * v(c)));
            }
        }
        assert_eq!(v(a) + (-v(a)), i24::zero());
        assert_eq!(v(a) * i24::one(), v(a));
        assert_eq!(!!v(a), v(a));
        assert_eq!((!v(a)).to_i32(), -1 - a);
    }
}

#[test]
fn wrapping_agrees_with_unsigned_patterns() {
    let samples = [-8388608, -1000, -1, 0, 1, 12345, 8388607];
    for a in samples {
        for b in samples {
            let ua = v(a).to_bits();
            let ub = v(b).to_bits();
            assert_eq!((v(a) + v(b)).to_bits(), ua.wrapping_add(ub) & 0xffffff);
            assert_eq!((v(a) - v(b)).to_bits(), ua.wrapping_sub(ub) & 0xffffff);
            assert_eq!((v(a) * v(b)).to_bits(), ua.wrapping_mul(ub) & 0xffffff);
        }
    }
}

#[test]
fn checked_agrees_with_wrapping() {
    let samples = [-8388608, -4096, -3, -1, 0, 1, 2, 4096, 8388607];
    for a in samples {
        for b in samples {
            if let Some(s) = v(a).checked_add(v(b)) {
                assert_eq!(s, v(a) + v(b));
            }
            if let Some(s) = v(a).checked_sub(v(b)) {
                assert_eq!(s, v(a) - v(b));
            }
            if let Some(s) = v(a).checked_mul(v(b)) {
                assert_eq!(s, v(a) * v(b));
            }
            if let Some(s) = v(a).checked_div(v(b)) {
                assert_eq!(s, v(a) / v(b));
            }
            if let Some(s) = v(a).checked_rem(v(b)) {
                assert_eq!(s, v(a) % v(b));
            }
        }
    }
    assert_eq!(i24::min_value().checked_div(v(-1)), None);
    assert_eq!(i24::min_value().checked_rem(v(-1)), None);
    assert_eq!(v(4096).checked_mul(v(4096)), None);
}

#[test]
fn div_rem_identity_on_samples() {
    let samples = [-8388608, -100, -7, -1, 1, 2, 7, 100, 8388607];
    for a in samples {
        for b in samples {
            let q = (a as i64) / (b as i64);
            let r = (v(a) % v(b)).to_i32() as i64;
            assert_eq!(a as i64, (b as i64) * q + r);
            assert!(r.abs() < (b as i64).abs());
        }
    }
}

#[test]
fn shifts_at_the_edges() {
    assert_eq!((v(5) << 31).to_i32(), 0);
    assert_eq!((v(-5) >> 31).to_i32(), -1);
    assert_eq!((v(5) >> 31).to_i32(), 0);
    assert_eq!((v(-8) >> 1).to_i32(), -4);
    assert_eq!((v(-7) >> 1).to_i32(), -4);
    assert_eq!((v(0x400000) << 1), i24::min_value());
    assert_eq!((i24::max_value() >> 0), i24::max_value());
}

#[test]
fn bitwise_edges() {
    assert_eq!((v(-1) & v(0x123456)).to_i32(), 0x123456);
    assert_eq!((v(-0x800000) | v(1)).to_i32(), -0x7fffff);
    assert_eq!((v(-1) ^ v(0x7fffff)).to_i32(), -0x800000);
    assert_eq!((!i24::zero()).to_i32(), -1);
    assert_eq!((!i24::min_value()), i24::max_value());
}

#[test]
fn parse_errors() {
    assert!(matches!(i24::from_str(""), Err(ParseI24Error::ParseError(_))));
    assert!(matches!(i24::from_str("abc"), Err(ParseI24Error::ParseError(_))));
    assert!(matches!(i24::from_str(" 1"), Err(ParseI24Error::ParseError(_))));
    assert!(matches!(i24::from_str("-"), Err(ParseI24Error::ParseError(_))));
    assert!(matches!(
        i24::from_str("99999999999"),
        Err(ParseI24Error::ParseError(_))
    ));
    assert_eq!(i24::from_str("2147483647"), Err(ParseI24Error::OutOfRange));
    assert_eq!(i24::from_str("+42").unwrap().to_i32(), 42);
    assert_eq!(<i24 as FromStr>::from_str("-7").unwrap().to_i32(), -7);
    assert_eq!("123".parse::<i24>().unwrap().to_i32(), 123);
}

#[test]
fn parse_radix() {
    assert_eq!(i24::from_str_radix("ff", 16).unwrap().to_i32(), 255);
    assert_eq!(i24::from_str_radix("-7FFFFF", 16).unwrap().to_i32(), -0x7fffff);
    assert_eq!(i24::from_str_radix("-800000", 16).unwrap(), i24::min_value());
    assert_eq!(
        i24::from_str_radix("800000", 16),
        Err(ParseI24Error::OutOfRange)
    );
    assert_eq!(i24::from_str_radix("101", 2).unwrap().to_i32(), 5);
    assert!(matches!(
        i24::from_str_radix("2", 2),
        Err(ParseI24Error::ParseError(_))
    ));
    assert_eq!(i24::from_str_radix("z", 36).unwrap().to_i32(), 35);
}

#[test]
fn decimal_roundtrip_on_samples() {
    for n in [-8388608, -100000, -1, 0, 9, 10, 8388607] {
        let s = v(n).to_string();
        assert_eq!(s, n.to_string());
        assert_eq!(i24::from_str(&s).unwrap(), v(n));
    }
}

#[test]
fn zero_one_default() {
    assert!(i24::zero().is_zero());
    assert!(!i24::one().is_zero());
    assert_eq!(i24::default(), i24::zero());
    assert_eq!(i24::BITS, 24);
    assert_eq!(i24::max_value().to_i32(), 8388607);
    assert_eq!(i24::min_value().to_i32(), -8388608);
}

#[test]
fn order_follows_value() {
    assert!(v(-1) < v(0));
    assert!(i24::min_value() < i24::max_value());
    assert!(v(100) > v(-100));
    let mut xs = vec![v(3), v(-8388608), v(0), v(-1), v(8388607)];
    xs.sort();
    let ys: Vec<i32> = xs.iter().map(|x| x.to_i32()).collect();
    assert_eq!(ys, vec![-8388608, -1, 0, 3, 8388607]);
}

#[test]
fn error_from_parse_int_error() {
    let e = "x".parse::<i32>().unwrap_err();
    let converted: ParseI24Error = ParseI24Error::from(e.clone());
    assert_eq!(converted, ParseI24Error::ParseError(e));
}

#[test]
fn reference_operators() {
    let a = v(-300);
    let b = v(7);
    assert_eq!(a + &b, a + b);
    assert_eq!(&a - b, a - b);
    assert_eq!(&a * &b, a * b);
    assert_eq!(&a / &b, v(-42));
    assert_eq!(a % &b, v(-6));
    assert_eq!(&a & b, a & b);
    assert_eq!(a | &b, a | b);
    assert_eq!(&a ^ &b, a ^ b);
    let mut c = a;
    c += &b;
    c -= &b;
    c *= &b;
    assert_eq!(c, v(-2100));
    c /= &b;
    c %= &v(1000);
    assert_eq!(c, v(-300));
    c &= &v(0xff);
    c |= &v(0x100);
    c ^= &v(0x1);
    assert_eq!(c.to_i32(), (-300 & 0xff | 0x100) ^ 1);
}

#[test]
fn error_messages() {
    assert_eq!(
        ParseI24Error::OutOfRange.to_string(),
        "Value out of range for i24"
    );
    let e = i24::from_str("x").unwrap_err();
    let inner = "x".parse::<i32>().unwrap_err().to_string();
    assert_eq!(e.to_string(), format!("Parse error: {}", inner));
}

#[test]
fn equality_follows_value() {
    assert_eq!(v(5), i24::wrapping_from_i32(5 + 0x1000000));
    assert_ne!(v(5), v(-5));
    assert!(v(-3) <= v(-3));
    assert!(v(-3) >= v(-4));
    assert_eq!(v(7).partial_cmp(&v(8)), Some(std::cmp::Ordering::Less));
    assert_eq!(v(7).cmp(&v(7)), std::cmp::Ordering::Equal);
    assert_eq!(i24::max_value().cmp(&i24::min_value()), std::cmp::Ordering::Greater);
}

#[test]
fn parse_error_carries_the_i32_error() {
    for text in ["", "abc", "99999999999", "-99999999999", "+"] {
        let expected = text.parse::<i32>().unwrap_err();
        assert_eq!(i24::from_str(text), Err(ParseI24Error::ParseError(expected)));
    }
    let expected = i32::from_str_radix("zz", 10).unwrap_err();
    assert_eq!(
        i24::from_str_radix("zz", 10),
        Err(ParseI24Error::ParseError(expected))
    );
}

#[test]
fn parse_error_message_text() {
    assert_eq!(::i24::parse::parse_error_message("boom"), "Parse error: boom");
    let inner = "99999999999".parse::<i32>().unwrap_err();
    assert_eq!(
        ParseI24Error::ParseError(inner.clone()).to_string(),
        format!("Parse error: {}", inner)
    );
}

#[test]
fn wrapping_distributes() {
    let samples = [-8388608, -4097, -1, 0, 3, 4096, 8388607];
    for a in samples {
        for b in samples {
            for c in samples {
                assert_eq!(v(a) * (v(b) + v(c)), v(a) * v(b) + v(a) * v(c));
            }
        }
    }
}

#[test]
fn same_value_lemma_runs() {
    i24::same_value_same_i24(&v(1), &v(1));
}
