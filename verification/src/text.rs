//! Small operations on text that the rest of the library shares.

use vstd::prelude::*;
use vstd::string::*;
use vstd::utf8::is_ascii_chars_encode_utf8;

verus! {

/// Whether two string slices hold the same characters.
pub fn text_eq(a: &str, b: &str) -> (same: bool)
    ensures
        same == (a@ == b@),
{
    let left = a.to_owned();
    let right = b.to_owned();
    left == right
}

/// A decimal digit.
pub open spec fn is_digit(c: char) -> bool {
    '0' <= c <= '9'
}

/// What a decimal digit counts for.
pub open spec fn digit_value(c: char) -> int {
    c as int - '0' as int
}

/// Whether every character is a decimal digit.
pub open spec fn all_digits(digits: Seq<char>) -> bool {
    forall|i: int| 0 <= i < digits.len() ==> is_digit(#[trigger] digits[i])
}

/// The number that a run of decimal digits writes, most significant first.
pub open spec fn digits_value(digits: Seq<char>) -> int
    decreases digits.len(),
{
    if digits.len() == 0 {
        0
    } else {
        digits_value(digits.drop_last()) * 10 + digit_value(digits.last())
    }
}

/// Whether the text opens with a sign.
pub open spec fn has_sign(text: Seq<char>) -> bool {
    text.len() > 0 && (text[0] == '-' || text[0] == '+')
}

/// The text without its sign, if it has one.
pub open spec fn unsigned_part(text: Seq<char>) -> Seq<char> {
    if has_sign(text) {
        text.subrange(1, text.len() as int)
    } else {
        text
    }
}

/// The signed number that the text writes, whether or not it fits a machine integer.
pub open spec fn signed_value(text: Seq<char>) -> int {
    if text.len() > 0 && text[0] == '-' {
        -digits_value(unsigned_part(text))
    } else {
        digits_value(unsigned_part(text))
    }
}

/// The 64-bit integer that the text writes in decimal: an optional `+` or `-`,
/// then one digit or more, and nothing else. There is none where the text has
/// another shape or the number does not fit.
pub open spec fn integer_of(text: Seq<char>) -> Option<i64> {
    if unsigned_part(text).len() > 0 && all_digits(unsigned_part(text)) && i64::MIN
        <= signed_value(text) <= i64::MAX {
        Some(signed_value(text) as i64)
    } else {
        None
    }
}

/// Reads a decimal 64-bit integer; see [`integer_of`].
pub fn parse_integer(text: &str) -> (number: Option<i64>)
    ensures
        number == integer_of(text@),
{
    broadcast use is_ascii_spec_bytes;

    if !text.is_ascii() {
        proof {
            let i = choose|i: int| 0 <= i < text@.len() && !('\0' <= #[trigger] text@[i] <= '\u{7f}');
            if has_sign(text@) {
                assert(unsigned_part(text@)[i - 1] == text@[i]);
            }
        }
        return None;
    }
    let bytes = text.as_bytes();
    let len: usize = bytes.len();
    proof {
        is_ascii_chars_encode_utf8(text@);
    }
    if len == 0 {
        return None;
    }
    let first: u8 = bytes[0];
    let negative: bool = first == 45;
    let start: usize = if first == 45 || first == 43 {
        1
    } else {
        0
    };
    if start == len {
        return None;
    }
    let ghost digits = unsigned_part(text@);
    let cap: u128 = 9223372036854775809;
    let mut magnitude: u128 = 0;
    let mut i: usize = start;
    while i < len
        invariant
            len == text@.len(),
            bytes@.len() == len,
            forall|k: int| 0 <= k < len ==> #[trigger] text@[k] as u8 == bytes@[k],
            forall|k: int| 0 <= k < len ==> '\0' <= #[trigger] text@[k] <= '\u{7f}',
            start <= i <= len,
            start == (if has_sign(text@) { 1usize } else { 0usize }),
            digits == unsigned_part(text@),
            cap == 9223372036854775809,
            all_digits(digits.subrange(0, i - start)),
            magnitude <= cap,
            magnitude == (if digits_value(digits.subrange(0, i - start)) >= cap {
                cap as int
            } else {
                digits_value(digits.subrange(0, i - start))
            }),
        decreases len - i,
    {
        let byte: u8 = bytes[i];
        proof {
            assert(digits[i - start] == text@[i as int]);
            assert(digits.subrange(0, i + 1 - start).drop_last() == digits.subrange(
                0,
                i - start,
            ));
        }
        if byte < 48 || byte > 57 {
            return None;
        }
        let next: u128 = magnitude * 10 + (byte - 48) as u128;
        magnitude = if next >= cap {
            cap
        } else {
            next
        };
        i += 1;
    }
    proof {
        assert(digits.subrange(0, len - start) == digits);
    }
    if negative {
        if magnitude > 9223372036854775808 {
            None
        } else if magnitude == 9223372036854775808 {
            Some(i64::MIN)
        } else {
            Some(-(magnitude as i64))
        }
    } else {
        if magnitude > 9223372036854775807 {
            None
        } else {
            Some(magnitude as i64)
        }
    }
}

} // verus!
