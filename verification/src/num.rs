//! Decimal formatting and parsing of unsigned integers.
use vstd::prelude::*;

use crate::text::{chars_of, is_ascii_digit, push_char};

verus! {

/// The ASCII digit for `d < 10`.
pub open spec fn digit_char(d: nat) -> char {
    (48 + d) as char
}

/// The value of an ASCII digit.
pub open spec fn digit_val(c: char) -> int {
    (c as u32) - 48
}

/// The decimal representation of `n` (`n.to_string()`).
pub open spec fn dec(n: nat) -> Seq<char>
    decreases n,
{
    if n < 10 {
        seq![digit_char(n)]
    } else {
        dec(n / 10).push(digit_char(n % 10))
    }
}

/// The value of a string of decimal digits.
pub open spec fn digits_val(s: Seq<char>) -> int
    decreases s.len(),
{
    if s.len() == 0 {
        0
    } else {
        digits_val(s.drop_last()) * 10 + digit_val(s.last())
    }
}

pub open spec fn all_digits(s: Seq<char>) -> bool {
    forall|i: int| 0 <= i < s.len() ==> is_ascii_digit(#[trigger] s[i])
}

/// The digits that `str::parse` reads for an unsigned type: one leading
/// `+` is allowed.
pub open spec fn unsigned_body(s: Seq<char>) -> Seq<char> {
    if s.len() > 0 && s[0] == '+' {
        s.drop_first()
    } else {
        s
    }
}

/// `str::parse` for an unsigned integer type whose largest value is `max`.
pub open spec fn parse_unsigned(s: Seq<char>, max: int) -> Option<int> {
    let b = unsigned_body(s);
    if b.len() > 0 && all_digits(b) && digits_val(b) <= max {
        Some(digits_val(b))
    } else {
        None
    }
}

fn digit_of(d: u64) -> (c: char)
    requires
        d < 10,
    ensures
        c == digit_char(d as nat),
{
    let b: u8 = 48 + (d as u8);
    b as char
}

/// Formats `n` in decimal.
pub fn decimal(n: u64) -> (s: String)
    ensures
        s@ == dec(n as nat),
    decreases n,
{
    if n < 10 {
        let mut s = String::new();
        push_char(&mut s, digit_of(n));
        assert(s@ =~= dec(n as nat));
        s
    } else {
        let mut s = decimal(n / 10);
        push_char(&mut s, digit_of(n % 10));
        s
    }
}

pub proof fn lemma_digits_val_nonneg(s: Seq<char>)
    requires
        all_digits(s),
    ensures
        digits_val(s) >= 0,
    decreases s.len(),
{
    if s.len() > 0 {
        assert(is_ascii_digit(s[s.len() - 1]));
        assert(all_digits(s.drop_last())) by {
            assert forall|i: int| 0 <= i < s.drop_last().len() implies is_ascii_digit(
                #[trigger] s.drop_last()[i],
            ) by {
                assert(s.drop_last()[i] == s[i]);
            }
        }
        lemma_digits_val_nonneg(s.drop_last());
    }
}

/// A digit string is worth at least as much as any of its prefixes.
pub proof fn lemma_digits_val_prefix(s: Seq<char>, k: int)
    requires
        all_digits(s),
        0 <= k <= s.len(),
    ensures
        digits_val(s.take(k)) <= digits_val(s),
    decreases s.len() - k,
{
    if k < s.len() {
        let t = s.take(k + 1);
        assert(t.drop_last() =~= s.take(k));
        assert(all_digits(s.take(k))) by {
            assert forall|i: int| 0 <= i < s.take(k).len() implies is_ascii_digit(
                #[trigger] s.take(k)[i],
            ) by {
                assert(s.take(k)[i] == s[i]);
            }
        }
        lemma_digits_val_nonneg(s.take(k));
        assert(is_ascii_digit(s[k]));
        assert(t.last() == s[k]);
        lemma_digits_val_prefix(s, k + 1);
    } else {
        assert(s.take(k) =~= s);
    }
}

/// Parses an unsigned decimal number no larger than `max`.
pub fn parse_unsigned_max(s: &str, max: u64) -> (r: Option<u64>)
    ensures
        r == (match parse_unsigned(s@, max as int) {
            Some(v) => Some(v as u64),
            None => None::<u64>,
        }),
        r matches Some(x) ==> x <= max && parse_unsigned(s@, max as int) == Some(x as int),
{
    let v = chars_of(s);
    let start: usize = if v.len() > 0 && v[0] == '+' {
        1
    } else {
        0
    };
    let ghost body = unsigned_body(s@);
    assert(body =~= v@.subrange(start as int, v@.len() as int));
    if start >= v.len() {
        return None;
    }
    let mut value: u64 = 0;
    let mut i: usize = start;
    while i < v.len()
        invariant
            v@ == s@,
            start <= i <= v@.len(),
            body == unsigned_body(s@),
            body =~= v@.subrange(start as int, v@.len() as int),
            all_digits(body.take(i - start)),
            value == digits_val(body.take(i - start)),
            value <= max,
        decreases v.len() - i,
    {
        let c = v[i];
        let ghost k = i - start;
        if !('0' <= c && c <= '9') {
            assert(body[k] == c);
            assert(!all_digits(body));
            assert(parse_unsigned(s@, max as int) is None);
            return None;
        }
        let d: u64 = (c as u32 - 48) as u64;
        let next: u128 = (value as u128) * 10 + (d as u128);
        proof {
            let t = body.take(k + 1);
            assert(t.drop_last() =~= body.take(k));
            assert(t.last() == c);
            assert(digit_val(c) == d);
            assert(digits_val(t) == next as int);
            assert(all_digits(t)) by {
                assert forall|j: int| 0 <= j < t.len() implies is_ascii_digit(#[trigger] t[j]) by {
                    if j < k {
                        assert(t[j] == body.take(k)[j]);
                    }
                }
            }
        }
        if next > max as u128 {
            proof {
                let t = body.take(k + 1);
                if all_digits(body) {
                    lemma_digits_val_prefix(body, k + 1);
                }
                assert(parse_unsigned(s@, max as int) is None);
            }
            return None;
        }
        value = next as u64;
        i = i + 1;
    }
    assert(body.take(i - start) =~= body);
    Some(value)
}

/// `str::parse::<u16>`.
pub fn parse_u16(s: &str) -> (r: Option<u16>)
    ensures
        r matches Some(x) ==> parse_unsigned(s@, u16::MAX as int) == Some(x as int),
        r is None ==> parse_unsigned(s@, u16::MAX as int) is None,
{
    let r = parse_unsigned_max(s, u16::MAX as u64);
    match r {
        Some(v) => {
            assert(parse_unsigned(s@, u16::MAX as int) == Some(v as int));
            Some(v as u16)
        },
        None => None,
    }
}

/// `str::parse::<u32>`.
pub fn parse_u32(s: &str) -> (r: Option<u32>)
    ensures
        r matches Some(x) ==> parse_unsigned(s@, u32::MAX as int) == Some(x as int),
        r is None ==> parse_unsigned(s@, u32::MAX as int) is None,
{
    let r = parse_unsigned_max(s, u32::MAX as u64);
    match r {
        Some(v) => {
            assert(parse_unsigned(s@, u32::MAX as int) == Some(v as int));
            Some(v as u32)
        },
        None => None,
    }
}

/// A number's decimal form is a nonempty string of digits that reads back
/// as the number.
pub proof fn lemma_dec_digits(n: nat)
    ensures
        dec(n).len() > 0,
        all_digits(dec(n)),
        digits_val(dec(n)) == n,
        dec(n)[0] != '+',
    decreases n,
{
    if n < 10 {
        assert(dec(n).drop_last() =~= Seq::<char>::empty());
        assert(digit_val(digit_char(n)) == n);
        assert(digits_val(dec(n).drop_last()) == 0);
        assert(digits_val(dec(n)) == digits_val(dec(n).drop_last()) * 10 + digit_val(dec(n).last()));
    } else {
        lemma_dec_digits(n / 10);
        let d = dec(n);
        assert(d.drop_last() =~= dec(n / 10));
        assert(all_digits(d)) by {
            assert forall|i: int| 0 <= i < d.len() implies is_ascii_digit(#[trigger] d[i]) by {
                if i < d.len() - 1 {
                    assert(d[i] == dec(n / 10)[i]);
                }
            }
        }
        assert(d[0] == dec(n / 10)[0]);
        assert(d.last() == digit_char(n % 10));
        assert(digit_val(digit_char(n % 10)) == n % 10);
        assert((n / 10) * 10 + n % 10 == n) by (nonlinear_arith);
        assert(digits_val(d) == digits_val(d.drop_last()) * 10 + digit_val(d.last()));
    }
}

/// Reading back a formatted number gives the number: `n.to_string().parse()`
/// returns `n` for every `n` that fits the target type.
pub proof fn law_parse_decimal_roundtrip(n: nat, max: int)
    requires
        n <= max,
    ensures
        parse_unsigned(dec(n), max) == Some(n as int),
{
    lemma_dec_digits(n);
    assert(unsigned_body(dec(n)) == dec(n));
}

/// Every number has at least one digit.
pub proof fn lemma_dec_nonempty(n: nat)
    ensures
        dec(n).len() > 0,
{
    lemma_dec_digits(n);
}

pub proof fn lemma_dec_injective(a: nat, b: nat)
    requires
        dec(a) == dec(b),
    ensures
        a == b,
{
    lemma_dec_digits(a);
    lemma_dec_digits(b);
}

} // verus!
