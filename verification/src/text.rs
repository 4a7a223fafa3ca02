//! Codes as text: six decimal digits, padded with zeros on the left. Also
//! what this library takes on trust of the text type of std.

use vstd::prelude::*;

verus! {

/// Number of digits of a code as text.
pub const CODE_DIGITS: usize = 6;

/// `String::push` of std. Trusted: it appends the character at the end.
pub assume_specification[ String::push ](text: &mut String, ch: char)
    ensures
        final(text)@ == old(text)@.push(ch),
;

/// `String::pop` of std. Trusted: it takes the last character off and returns
/// it, and returns `None` for an empty text, which it leaves as it is.
pub assume_specification[ String::pop ](text: &mut String) -> (last: Option<char>)
    ensures
        old(text)@.len() == 0 ==> last is None && final(text)@ == old(text)@,
        old(text)@.len() > 0 ==> last == Some(old(text)@.last()) && final(text)@ == old(
            text,
        )@.drop_last(),
;

/// The character of a decimal digit. Meaningful for 0 to 9.
pub open spec fn digit_char(digit: int) -> char
    recommends
        0 <= digit <= 9,
{
    (48 + digit) as char
}

/// The six decimal digits of `code` modulo one million, most significant
/// first, with zeros where the number is short.
pub open spec fn code_digits(code: int) -> Seq<char> {
    seq![
        digit_char((code / 100_000) % 10),
        digit_char((code / 10_000) % 10),
        digit_char((code / 1_000) % 10),
        digit_char((code / 100) % 10),
        digit_char((code / 10) % 10),
        digit_char(code % 10),
    ]
}

/// The character of the decimal digit `digit % 10`.
pub fn digit_to_char(digit: u32) -> (ch: char)
    ensures
        ch == digit_char(digit as int % 10),
{
    let low: u8 = (digit % 10) as u8;
    (48u8 + low) as char
}

/// Writes `code` as six decimal digits, padded with zeros on the left. Of a
/// number of more than six digits the last six are written.
pub fn code_text(code: u32) -> (text: String)
    ensures
        text@ == code_digits(code as int),
        text@.len() == CODE_DIGITS,
{
    let mut text = String::new();
    text.push(digit_to_char(code / 100_000));
    text.push(digit_to_char(code / 10_000));
    text.push(digit_to_char(code / 1_000));
    text.push(digit_to_char(code / 100));
    text.push(digit_to_char(code / 10));
    text.push(digit_to_char(code));
    text
}

} // verus!
