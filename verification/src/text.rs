//! Decimal numbers as text, and comparison of byte strings.

use vstd::prelude::*;
use vstd::string::*;
use vstd::utf8::*;

verus! {

/// Whether two byte strings are equal.
pub fn bytes_eq(a: &[u8], b: &[u8]) -> (same: bool)
    ensures
        same == (a@ == b@),
{
    if a.len() != b.len() {
        return false;
    }
    let mut i: usize = 0;
    while i < a.len()
        invariant
            a.len() == b.len(),
            i <= a.len(),
            forall|k: int| 0 <= k < i ==> a@[k] == b@[k],
        decreases a.len() - i,
    {
        if a[i] != b[i] {
            return false;
        }
        i = i + 1;
    }
    assert(a@ =~= b@);
    true
}

/// Whether `c` is one of the ten decimal digits.
pub open spec fn is_digit(c: char) -> bool {
    '0' <= c <= '9'
}

/// The value of the decimal digit `c`.
pub open spec fn digit_value(c: char) -> int {
    c as int - '0' as int
}

/// Whether `s` holds decimal digits only.
pub open spec fn all_digits(s: Seq<char>) -> bool {
    forall|i: int| 0 <= i < s.len() ==> is_digit(#[trigger] s[i])
}

/// The number that the digits of `s` write, most significant first.
pub open spec fn digits_value(s: Seq<char>) -> int
    decreases s.len(),
{
    if s.len() == 0 {
        0
    } else {
        digits_value(s.drop_last()) * 10 + digit_value(s.last())
    }
}

/// The 32-bit signed integer that `s` writes in decimal: an optional sign,
/// `+` or `-`, then one digit or more, and nothing else. `None` where `s` is
/// not of that form or the number does not fit.
pub open spec fn parse_i32(s: Seq<char>) -> Option<int> {
    if s.len() == 0 {
        None
    } else {
        let signed = s[0] == '-' || s[0] == '+';
        let digits = if signed { s.skip(1) } else { s };
        let value = if s[0] == '-' { -digits_value(digits) } else { digits_value(digits) };
        if digits.len() > 0 && all_digits(digits) && i32::MIN <= value <= i32::MAX {
            Some(value)
        } else {
            None
        }
    }
}

/// The integer that `s` writes, or 0 where it writes none.
pub open spec fn number_or_zero(s: Seq<char>) -> int {
    match parse_i32(s) {
        Some(value) => value,
        None => 0,
    }
}

/// A longer run of digits writes no smaller a number than its beginning.
proof fn lemma_digits_value_grows(s: Seq<char>, k: int)
    requires
        0 <= k <= s.len(),
        all_digits(s),
    ensures
        0 <= digits_value(s.take(k)) <= digits_value(s),
    decreases s.len() - k,
{
    if k == s.len() {
        assert(s.take(k) =~= s);
        lemma_digits_value_nonnegative(s);
    } else {
        lemma_digits_value_grows(s.drop_last(), k);
        assert(s.drop_last().take(k) =~= s.take(k));
    }
}

/// A run of digits writes no negative number.
proof fn lemma_digits_value_nonnegative(s: Seq<char>)
    requires
        all_digits(s),
    ensures
        0 <= digits_value(s),
    decreases s.len(),
{
    if s.len() > 0 {
        lemma_digits_value_nonnegative(s.drop_last());
    }
}

/// The byte of the sign `-`.
const MINUS: u8 = 45;

/// The byte of the sign `+`.
const PLUS: u8 = 43;

/// The byte of the digit `0`.
const ZERO: u8 = 48;

/// The byte of the digit `9`.
const NINE: u8 = 57;

/// Reads a 32-bit signed decimal integer, and gives 0 for any text that is
/// not one.
pub fn parse_number(text: &str) -> (n: i32)
    ensures
        n == number_or_zero(text@),
{
    if !text.is_ascii() {
        proof {
            let s = text@;
            let i = choose|i: int| 0 <= i < s.len() && !('\0' <= #[trigger] s[i] <= '\u{7f}');
            if i > 0 {
                let digits = if s[0] == '-' || s[0] == '+' { s.skip(1) } else { s };
                if s[0] == '-' || s[0] == '+' {
                    assert(digits[i - 1] == s[i]);
                }
            }
        }
        return 0;
    }
    let bytes = text.as_bytes();
    proof {
        is_ascii_chars_encode_utf8(text@);
    }
    let n = bytes.len();
    if n == 0 {
        return 0;
    }
    let first = bytes[0];
    let negative = first == MINUS;
    let start: usize = if first == MINUS || first == PLUS { 1 } else { 0 };
    let ghost digits = text@.skip(start as int);
    if start == n {
        return 0;
    }
    let mut magnitude: i64 = 0;
    let mut i: usize = start;
    while i < n
        invariant
            start <= 1,
            start <= i <= n,
            n == text@.len(),
            bytes@.len() == n,
            digits == text@.skip(start as int),
            start == 1 <==> (text@[0] == '-' || text@[0] == '+'),
            forall|k: int| 0 <= k < n ==> bytes@[k] == (#[trigger] text@[k]) as u8,
            is_ascii_chars(text@),
            all_digits(digits.take(i - start)),
            magnitude == digits_value(digits.take(i - start)),
            0 <= magnitude <= 2147483648,
        decreases n - i,
    {
        let b = bytes[i];
        let ghost c = text@[i as int];
        assert(digits[i - start] == c);
        if b < ZERO || b > NINE {
            return 0;
        }
        assert(digits.take(i + 1 - start).drop_last() =~= digits.take(i - start));
        magnitude = magnitude * 10 + (b - ZERO) as i64;
        if magnitude > 2147483648 {
            proof {
                assert(text@.skip(0) =~= text@);
                if all_digits(digits) {
                    lemma_digits_value_grows(digits, i + 1 - start);
                }
            }
            return 0;
        }
        i = i + 1;
    }
    assert(digits.take(n - start) =~= digits);
    assert(text@.skip(0) =~= text@);
    if negative {
        (-magnitude) as i32
    } else if magnitude > 2147483647 {
        0
    } else {
        magnitude as i32
    }
}

/// The ten decimal digits in order.
pub open spec fn digits() -> Seq<char> {
    "0123456789"@
}

/// The text of the one digit `d`.
pub open spec fn digit(d: nat) -> Seq<char> {
    digits().subrange(d as int, d as int + 1)
}

/// The decimal digits that write `n`, most significant first, with no
/// leading zero but for zero itself.
pub open spec fn decimal(n: nat) -> Seq<char>
    decreases n,
{
    if n < 10 {
        digit(n)
    } else {
        decimal(n / 10) + digit(n % 10)
    }
}

/// Writes `n` in decimal.
pub fn decimal_text(n: u32) -> (text: String)
    ensures
        text@ == decimal(n as nat),
    decreases n,
{
    proof {
        reveal_strlit("0123456789");
    }
    if n < 10 {
        String::from_str("0123456789".substring_ascii(n as usize, n as usize + 1))
    } else {
        let last = (n % 10) as usize;
        decimal_text(n / 10).concat("0123456789".substring_ascii(last, last + 1))
    }
}

} // verus!
