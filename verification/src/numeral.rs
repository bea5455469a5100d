//! The text form of integers: what a numeral in a given radix stands for, and
//! the decimal form of a value, with the lemma that the one reads back the other.
use vstd::prelude::*;

verus! {

/// The value of a digit character: `0-9`, then `a-z` and `A-Z` for 10 to 35;
/// 36 for any other character, which is a digit in no radix.
pub open spec fn digit_value(c: char) -> int {
    let n = c as int;
    if 48 <= n <= 57 {
        n - 48
    } else if 97 <= n <= 122 {
        n - 87
    } else if 65 <= n <= 90 {
        n - 55
    } else {
        36
    }
}

/// Whether `s` is a non-empty run of digits of the given radix.
pub open spec fn is_digits(s: Seq<char>, radix: int) -> bool {
    &&& s.len() > 0
    &&& forall|i: int| 0 <= i < s.len() ==> #[trigger] digit_value(s[i]) < radix
}

/// The number that a run of digits stands for, most significant digit first.
pub open spec fn digits_value(s: Seq<char>, radix: int) -> int
    decreases s.len(),
{
    if s.len() == 0 {
        0
    } else {
        digits_value(s.drop_last(), radix) * radix + digit_value(s.last())
    }
}

/// The integer that `s` writes in the given radix: an optional `+` or `-`
/// followed by at least one digit, and nothing else; `None` for any other text.
pub open spec fn numeral_value(s: Seq<char>, radix: int) -> Option<int> {
    if s.len() > 0 && s[0] == '-' && is_digits(s.drop_first(), radix) {
        Some(-digits_value(s.drop_first(), radix))
    } else if s.len() > 0 && s[0] == '+' && is_digits(s.drop_first(), radix) {
        Some(digits_value(s.drop_first(), radix))
    } else if is_digits(s, radix) {
        Some(digits_value(s, radix))
    } else {
        None
    }
}

/// Whether `n` can be held by an `i32`.
pub open spec fn in_i32_range(n: int) -> bool {
    i32::MIN <= n <= i32::MAX
}

/// What parsing `s` as an `i32` in the given radix gives: the value when `s` is
/// a numeral whose value an `i32` can hold, `None` otherwise.
pub open spec fn parsed_i32(s: Seq<char>, radix: int) -> Option<int> {
    match numeral_value(s, radix) {
        Some(n) => if in_i32_range(n) {
            Some(n)
        } else {
            None
        },
        None => None,
    }
}

/// The character of a decimal digit `d` in `0 .. 10`.
pub open spec fn digit_char(d: int) -> char {
    (d + 48) as char
}

/// The decimal digits of `n`, most significant first, without leading zeros.
pub open spec fn nat_decimal(n: nat) -> Seq<char>
    decreases n,
{
    if n < 10 {
        seq![digit_char(n as int)]
    } else {
        nat_decimal(n / 10).push(digit_char((n % 10) as int))
    }
}

/// The decimal form of `v`: a `-` before the digits of a negative value.
pub open spec fn decimal(v: int) -> Seq<char> {
    if v < 0 {
        seq!['-'] + nat_decimal((-v) as nat)
    } else {
        nat_decimal(v as nat)
    }
}

/// A decimal digit character reads back as its digit.
pub proof fn lemma_digit_char(d: int)
    requires
        0 <= d < 10,
    ensures
        digit_value(digit_char(d)) == d,
        digit_char(d) != '-',
        digit_char(d) != '+',
{
}

/// The decimal digits of `n` are a run of decimal digits that stands for `n`.
pub proof fn lemma_nat_decimal(n: nat)
    ensures
        is_digits(nat_decimal(n), 10),
        digits_value(nat_decimal(n), 10) == n,
        nat_decimal(n)[0] != '-',
        nat_decimal(n)[0] != '+',
    decreases n,
{
    if n < 10 {
        lemma_digit_char(n as int);
        let s = nat_decimal(n);
        assert(s.drop_last() =~= Seq::<char>::empty());
        assert(digits_value(s, 10) == digits_value(s.drop_last(), 10) * 10 + digit_value(s.last()));
    } else {
        let q = (n / 10) as nat;
        let d = (n % 10) as int;
        lemma_nat_decimal(q);
        lemma_digit_char(d);
        let p = nat_decimal(q);
        let s = nat_decimal(n);
        assert(s == p.push(digit_char(d)));
        assert(s.drop_last() =~= p);
        assert(s.last() == digit_char(d));
        assert(digits_value(s, 10) == digits_value(p, 10) * 10 + d);
        assert(n == q * 10 + d);
        assert forall|i: int| 0 <= i < s.len() implies #[trigger] digit_value(s[i]) < 10 by {
            if i < p.len() {
                assert(s[i] == p[i]);
            }
        }
    }
}

/// The decimal digits of `n` are all characters `0-9`, and the first is not `0`
/// unless `n` is 0.
pub proof fn lemma_nat_decimal_canonical(n: nat)
    ensures
        nat_decimal(n).len() >= 1,
        forall|i: int|
            0 <= i < nat_decimal(n).len() ==> 48 <= #[trigger] (nat_decimal(n)[i] as int) <= 57,
        n > 0 ==> nat_decimal(n)[0] != '0',
    decreases n,
{
    if n >= 10 {
        let q = (n / 10) as nat;
        let d = (n % 10) as int;
        lemma_nat_decimal_canonical(q);
        let p = nat_decimal(q);
        let s = nat_decimal(n);
        assert(s == p.push(digit_char(d)));
        assert forall|i: int| 0 <= i < s.len() implies 48 <= #[trigger] (s[i] as int) <= 57 by {
            if i < p.len() {
                assert(s[i] == p[i]);
            }
        }
        assert(s[0] == p[0]);
    }
}

/// The decimal form of any value parses back, in radix 10, to that value.
pub proof fn lemma_decimal_numeral(v: int)
    ensures
        numeral_value(decimal(v), 10) == Some(v),
{
    if v < 0 {
        let m = (-v) as nat;
        lemma_nat_decimal(m);
        let s = decimal(v);
        assert(s.drop_first() =~= nat_decimal(m));
    } else {
        lemma_nat_decimal(v as nat);
    }
}

} // verus!
