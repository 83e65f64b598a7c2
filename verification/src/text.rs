//! Text helpers: comparing texts, joining them and reading and writing
//! decimal numbers.

use vstd::prelude::*;
use vstd::string::*;
use vstd::utf8::*;

use crate::bytes::same_bytes;

verus! {

/// Whether two strings hold the same characters.
pub fn same_text(a: &str, b: &str) -> (same: bool)
    ensures
        same == (a@ == b@),
{
    proof {
        encode_utf8_decode_utf8(a@);
        encode_utf8_decode_utf8(b@);
    }
    same_bytes(a.as_bytes(), b.as_bytes())
}

/// An owned copy of `s`.
pub fn text_of(s: &str) -> (owned: String)
    ensures
        owned@ == s@,
{
    s.to_owned()
}

/// The three texts one after another.
pub fn joined(first: &str, second: &str, third: &str) -> (text: String)
    ensures
        text@ == first@ + second@ + third@,
{
    let mut text = text_of(first);
    text.append(second);
    text.append(third);
    text
}

/// The character that stands for the decimal digit `d`.
pub open spec fn digit_char(d: nat) -> char {
    (('0' as nat) + d) as char
}

/// Whether `c` is one of the ten decimal digits.
pub open spec fn is_digit(c: char) -> bool {
    '0' <= c && c <= '9'
}

/// Whether every character of `s` is a decimal digit.
pub open spec fn all_digits(s: Seq<char>) -> bool {
    forall|i: int| 0 <= i < s.len() ==> is_digit(#[trigger] s[i])
}

/// The number that `n` is written as in decimal, without leading zeros.
pub open spec fn decimal_text(n: nat) -> Seq<char>
    decreases n,
{
    if n < 10 {
        seq![digit_char(n)]
    } else {
        decimal_text(n / 10).push(digit_char(n % 10))
    }
}

/// The number that a sequence of decimal digits stands for.
pub open spec fn digits_value(s: Seq<char>) -> nat
    decreases s.len(),
{
    if s.len() == 0 {
        0
    } else {
        digits_value(s.drop_last()) * 10 + ((s.last() as nat) - ('0' as nat)) as nat
    }
}

/// The digits of a number text: the text without a leading plus sign.
pub open spec fn unsigned_part(s: Seq<char>) -> Seq<char> {
    if s.len() > 0 && s[0] == '+' {
        s.drop_first()
    } else {
        s
    }
}

/// The `u32` that `s` is the decimal text of: an optional plus sign, then
/// one or more digits whose value fits. Anything else stands for no number.
pub open spec fn parsed_u32(s: Seq<char>) -> Option<u32> {
    let digits = unsigned_part(s);
    if digits.len() > 0 && all_digits(digits) && digits_value(digits) <= u32::MAX {
        Some(digits_value(digits) as u32)
    } else {
        None
    }
}

/// A longer run of digits never stands for a smaller number than its start.
proof fn lemma_digits_value_grows(s: Seq<char>, k: int)
    requires
        all_digits(s),
        0 <= k <= s.len(),
    ensures
        digits_value(s.take(k)) <= digits_value(s),
    decreases s.len() - k,
{
    if k == s.len() {
        assert(s.take(k) =~= s);
    } else {
        lemma_digits_value_grows(s, k + 1);
        let longer = s.take(k + 1);
        assert(longer.drop_last() =~= s.take(k));
        assert(is_digit(longer.last()));
    }
}

fn digit_text(d: u32) -> (s: &'static str)
    requires
        d < 10,
    ensures
        s@ == seq![digit_char(d as nat)],
{
    proof {
        reveal_strlit("0");
        reveal_strlit("1");
        reveal_strlit("2");
        reveal_strlit("3");
        reveal_strlit("4");
        reveal_strlit("5");
        reveal_strlit("6");
        reveal_strlit("7");
        reveal_strlit("8");
        reveal_strlit("9");
    }
    let s = match d {
        0 => "0",
        1 => "1",
        2 => "2",
        3 => "3",
        4 => "4",
        5 => "5",
        6 => "6",
        7 => "7",
        8 => "8",
        _ => "9",
    };
    assert(s@ =~= seq![digit_char(d as nat)]);
    s
}

/// Writes `n` in decimal.
pub fn decimal_string(n: u32) -> (text: String)
    ensures
        text@ == decimal_text(n as nat),
    decreases n,
{
    if n < 10 {
        text_of(digit_text(n))
    } else {
        let mut text = decimal_string(n / 10);
        text.append(digit_text(n % 10));
        assert(text@ =~= decimal_text((n / 10) as nat).push(digit_char((n % 10) as nat)));
        text
    }
}

/// Reads a `u32` written in decimal.
pub fn parse_u32(s: &str) -> (value: Option<u32>)
    ensures
        value == parsed_u32(s@),
{
    broadcast use is_ascii_spec_bytes;

    let ghost digits = unsigned_part(s@);
    if !s.is_ascii() {
        proof {
            let i = choose|i: int| 0 <= i < s@.len() && !('\0' <= #[trigger] s@[i] <= '\u{7f}');
            if i == 0 {
                assert(digits =~= s@);
                assert(!is_digit(digits[0]));
            } else if digits.len() == s@.len() {
                assert(!is_digit(digits[i]));
            } else {
                assert(!is_digit(digits[i - 1]));
            }
        }
        return None;
    }
    let bytes = s.as_bytes();
    let n = bytes.len();
    assert(n > 0 ==> bytes@[0] == s@[0] as u8);
    let start: usize = if n > 0 && bytes[0] == 43 {
        1
    } else {
        0
    };
    assert(n > 0 ==> '\0' <= s@[0] <= '\u{7f}');
    assert(digits =~= s@.skip(start as int));
    if start == n {
        return None;
    }
    let mut total: u64 = 0;
    let mut i: usize = start;
    while i < n
        invariant
            is_ascii(s),
            bytes@ == s.spec_bytes(),
            n == bytes@.len(),
            n == s@.len(),
            digits == unsigned_part(s@),
            digits == s@.skip(start as int),
            start <= i <= n,
            all_digits(digits.take(i - start)),
            total == digits_value(digits.take(i - start)),
            total <= u32::MAX,
        decreases n - i,
    {
        let b = bytes[i];
        assert(b == s@[i as int] as u8);
        assert('\0' <= s@[i as int] <= '\u{7f}');
        assert(digits[i - start] == s@[i as int]);
        if b < 48 || b > 57 {
            assert(!is_digit(digits[i - start]));
            return None;
        }
        let ghost longer = digits.take(i - start + 1);
        proof {
            assert(longer.drop_last() =~= digits.take(i - start));
            assert(longer.last() == digits[i - start]);
            assert forall|j: int| 0 <= j < longer.len() implies is_digit(#[trigger] longer[j]) by {
                if j < i - start {
                    assert(longer[j] == digits.take(i - start)[j]);
                }
            }
        }
        total = total * 10 + (b - 48) as u64;
        assert(total == digits_value(longer));
        if total > 0xffff_ffff {
            proof {
                if all_digits(digits) {
                    lemma_digits_value_grows(digits, i - start + 1);
                }
            }
            return None;
        }
        i += 1;
    }
    assert(digits.take(i - start) =~= digits);
    Some(total as u32)
}

/// A number written by [`decimal_string`] is read back by [`parse_u32`] as
/// the same number.
pub proof fn lemma_decimal_round_trip(n: u32)
    ensures
        parsed_u32(decimal_text(n as nat)) == Some(n),
{
    lemma_decimal_text(n as nat);
    let text = decimal_text(n as nat);
    assert(is_digit(text[0]));
    assert(unsigned_part(text) == text);
}

/// The decimal text of a number is a run of digits that stands for it.
proof fn lemma_decimal_text(n: nat)
    ensures
        decimal_text(n).len() > 0,
        all_digits(decimal_text(n)),
        digits_value(decimal_text(n)) == n,
    decreases n,
{
    if n < 10 {
        let text = decimal_text(n);
        assert(text.drop_last() =~= Seq::<char>::empty());
        assert(digits_value(text.drop_last()) == 0);
    } else {
        lemma_decimal_text(n / 10);
        let text = decimal_text(n);
        assert(text.drop_last() =~= decimal_text(n / 10));
        assert(text.last() == digit_char(n % 10));
    }
}

} // verus!
