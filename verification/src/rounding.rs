//! Reading the number of decimal places from what the user typed.

use vstd::prelude::*;
use crate::context::Rounding;

verus! {

/// The most decimal places that can be asked for.
pub const MAX_PLACES: u8 = 16;

/// `c` is one of the ten decimal digits.
pub open spec fn is_digit(c: char) -> bool {
    '0' <= c <= '9'
}

/// The number that the digit `c` stands for.
pub open spec fn digit_value(c: char) -> nat
    recommends
        is_digit(c),
{
    (c as u32 - '0' as u32) as nat
}

/// `s` is made of decimal digits, and of at least one.
pub open spec fn is_number(s: Seq<char>) -> bool {
    s.len() > 0 && forall|i: int| 0 <= i < s.len() ==> is_digit(#[trigger] s[i])
}

/// The number that the digits `s` write in base ten.
pub open spec fn number_value(s: Seq<char>) -> nat
    decreases s.len(),
{
    if s.len() == 0 {
        0
    } else {
        10 * number_value(s.drop_last()) + digit_value(s.last())
    }
}

/// `s` without a leading plus sign.
pub open spec fn unsigned_part(s: Seq<char>) -> Seq<char> {
    if s.len() > 0 && s[0] == '+' {
        s.skip(1)
    } else {
        s
    }
}

/// The small number that `s` writes: decimal digits, after at most one plus
/// sign, whose value fits eight bits. Anything else writes none: the empty
/// text, a sign alone, a minus sign, a space, a value over 255.
pub open spec fn parse_places(s: Seq<char>) -> Option<u8> {
    let digits = unsigned_part(s);
    if is_number(digits) && number_value(digits) <= u8::MAX {
        Some(number_value(digits) as u8)
    } else {
        None
    }
}

/// The rounding that the text `s` asks for: to the number it writes, or to 16
/// places if that is less; no rounding where it writes no number.
pub open spec fn rounding_for(s: Seq<char>) -> Rounding {
    match parse_places(s) {
        Some(places) => Rounding::Round(if places < MAX_PLACES { places } else { MAX_PLACES }),
        None => Rounding::NoRounding,
    }
}

/// A number only grows when a digit is written behind it.
pub proof fn lemma_number_value_grows(s: Seq<char>, k: int)
    requires
        0 <= k <= s.len(),
    ensures
        number_value(s.take(k)) <= number_value(s),
    decreases s.len() - k,
{
    if k < s.len() {
        lemma_number_value_grows(s, k + 1);
        assert(s.take(k + 1).drop_last() =~= s.take(k));
    } else {
        assert(s.take(k) =~= s);
    }
}

/// The small number that `text` writes, if it writes one.
pub fn parse_small(text: &str) -> (r: Option<u8>)
    ensures
        r == parse_places(text@),
{
    let chars = crate::text::chars_of(text);
    let start: usize = if chars.len() > 0 && chars[0] == '+' { 1 } else { 0 };
    let ghost digits = unsigned_part(text@);
    assert(digits =~= chars@.skip(start as int));
    if start == chars.len() {
        return None;
    }
    let mut value: u32 = 0;
    let mut i: usize = start;
    while i < chars.len()
        invariant
            start <= i <= chars.len(),
            digits == chars@.skip(start as int),
            digits == unsigned_part(text@),
            is_number(digits.take(i - start)) || i == start,
            value == number_value(digits.take(i - start)),
            value <= u8::MAX,
        decreases chars.len() - i,
    {
        let c = chars[i];
        let ghost upto = digits.take(i - start + 1);
        proof {
            assert(upto.drop_last() =~= digits.take(i - start));
            assert(upto.last() == c);
            assert(digits[i - start] == c);
            assert(number_value(upto) == 10 * number_value(upto.drop_last()) + digit_value(c));
        }
        if !('0' <= c && c <= '9') {
            assert(!is_digit(digits[i - start]));
            return None;
        }
        let d: u32 = c as u32 - '0' as u32;
        value = 10 * value + d;
        assert(value == number_value(upto));
        if value > 255 {
            proof {
                lemma_number_value_grows(digits, i - start + 1);
            }
            return None;
        }
        assert(is_number(upto)) by {
            assert forall|j: int| 0 <= j < upto.len() implies is_digit(#[trigger] upto[j]) by {
                if j < i - start {
                    assert(upto[j] == digits.take(i - start)[j]);
                }
            }
        }
        i += 1;
    }
    assert(digits.take(chars.len() - start) =~= digits);
    Some(value as u8)
}

/// The rounding that `text` asks for.
pub fn rounding_from_text(text: &str) -> (rounding: Rounding)
    ensures
        rounding == rounding_for(text@),
{
    match parse_small(text) {
        Some(places) => Rounding::Round(if places < MAX_PLACES { places } else { MAX_PLACES }),
        None => Rounding::NoRounding,
    }
}

} // verus!
