//! Values of attribute files.
//!
//! An attribute of the gadget tree is a small text file. The functions here
//! turn the content of such a file into a number or a truth value. Reading
//! the file is left to the caller.

use vstd::prelude::*;
use std::num::ParseIntError;
use crate::error::{DeserializedError, Error, ErrorKind};
use crate::text::{begins_with, decimal, has_prefix, same_text, trim, trimmed};

verus! {

/// What `parse_int::parse::<u8>` makes of `text`: the number, or nothing
/// where it refuses the text.
pub uninterp spec fn parsed_u8(text: Seq<char>) -> Option<u8>;

/// What `parse_int::parse::<u16>` makes of `text`: the number, or nothing
/// where it refuses the text.
pub uninterp spec fn parsed_u16(text: Seq<char>) -> Option<u16>;

/// The truth value that `text` stands for, whitespace around it aside.
pub open spec fn truth_value(text: Seq<char>) -> Option<bool> {
    let t = trimmed(text);
    if t == seq!['1'] || t == seq!['t', 'r', 'u', 'e'] {
        Some(true)
    } else if t == seq!['0'] || t == seq!['f', 'a', 'l', 's', 'e'] {
        Some(false)
    } else {
        None
    }
}

/// The message of the error that reports `text` as no truth value.
pub open spec fn not_boolean_message(text: Seq<char>) -> Seq<char> {
    "Can not parse "@ + trimmed(text) + " to boolean."@
}

/// Whether `text`, whitespace around it aside, begins with a minus sign.
pub open spec fn is_negative_numeral(text: Seq<char>) -> bool {
    begins_with(trimmed(text), seq!['-'])
}

/// The message of the error that reports `text` as a negative numeral.
pub open spec fn negative_message(text: Seq<char>) -> Seq<char> {
    "Can not parse "@ + trimmed(text) + " to an unsigned number."@
}

/// The value of a plain decimal numeral: digits and nothing else, without a
/// leading zero unless the numeral is `0`.
pub open spec fn plain_decimal(text: Seq<char>) -> Option<nat> {
    if text.len() == 1 || (text.len() > 1 && text[0] != '0') {
        digits_value(text)
    } else {
        None
    }
}

/// The number that an attribute file with content `text` holds, where the
/// attribute is an unsigned 8-bit number. There is none where the numeral
/// has a minus sign. A plain decimal numeral that fits has its value. Of
/// any other text the number is what the integer parser makes of it.
pub open spec fn u8_value(text: Seq<char>) -> Option<u8> {
    if is_negative_numeral(text) {
        None
    } else {
        match plain_decimal(text) {
            Some(n) if n <= u8::MAX => Some(n as u8),
            _ => parsed_u8(text),
        }
    }
}

/// The number that an attribute file with content `text` holds, where the
/// attribute is an unsigned 16-bit number. See [`u8_value`].
pub open spec fn u16_value(text: Seq<char>) -> Option<u16> {
    if is_negative_numeral(text) {
        None
    } else {
        match plain_decimal(text) {
            Some(n) if n <= u16::MAX => Some(n as u16),
            _ => parsed_u16(text),
        }
    }
}

/// The value of a decimal digit.
pub open spec fn digit_value(c: char) -> Option<nat> {
    if '0' <= c <= '9' {
        Some((c as u32 - '0' as u32) as nat)
    } else {
        None
    }
}

/// The value of a text made of decimal digits, and of nothing else.
pub open spec fn digits_value(text: Seq<char>) -> Option<nat>
    decreases text.len(),
{
    if text.len() == 0 {
        None
    } else if text.len() == 1 {
        digit_value(text[0])
    } else {
        match (digits_value(text.drop_last()), digit_value(text.last())) {
            (Some(high), Some(low)) => Some(high * 10 + low),
            _ => None,
        }
    }
}

/// The value of a decimal numeral with an optional sign, where it fits a
/// signed 32-bit number.
pub open spec fn i32_value(text: Seq<char>) -> Option<i32> {
    let negative = text.len() > 0 && text[0] == '-';
    let signed = text.len() > 0 && (text[0] == '-' || text[0] == '+');
    let digits = if signed {
        text.drop_first()
    } else {
        text
    };
    match digits_value(digits) {
        Some(magnitude) => {
            let value = if negative {
                -(magnitude as int)
            } else {
                magnitude as int
            };
            if i32::MIN <= value <= i32::MAX {
                Some(value as i32)
            } else {
                None
            }
        },
        None => None,
    }
}

/// `i32::from_str` of std: the value of a decimal numeral with an optional
/// sign. Anything but digits after the sign, no digit at all, or a value
/// outside the range of `i32` is refused.
#[verifier::external_body]
pub(crate) fn parse_i32(text: &str) -> (r: core::result::Result<i32, ParseIntError>)
    ensures
        r.ok() == i32_value(text@),
{
    text.parse::<i32>()
}

/// `parse_int::parse::<u8>`: parses a numeral with an optional `0x`, `0o` or
/// `0b` prefix and underscores between digits, whitespace around it aside.
/// The result is a function of the text alone, and of a plain decimal
/// numeral that fits it is the value. A numeral with a minus sign is kept
/// away: on it the outside function computes with overflow.
#[verifier::external_body]
fn parse_u8(text: &str) -> (r: core::result::Result<u8, ParseIntError>)
    requires
        !is_negative_numeral(text@),
    ensures
        r.ok() == parsed_u8(text@),
        match plain_decimal(text@) {
            Some(n) if n <= u8::MAX => r.ok() == Some(n as u8),
            _ => true,
        },
{
    parse_int::parse::<u8>(text)
}

/// `parse_int::parse::<u16>`: as for `u8`, with the range of `u16`.
#[verifier::external_body]
fn parse_u16(text: &str) -> (r: core::result::Result<u16, ParseIntError>)
    requires
        !is_negative_numeral(text@),
    ensures
        r.ok() == parsed_u16(text@),
        match plain_decimal(text@) {
            Some(n) if n <= u16::MAX => r.ok() == Some(n as u16),
            _ => true,
        },
{
    parse_int::parse::<u16>(text)
}

/// Turns the outcome of the integer parser into the outcome of reading an
/// attribute: the number as it is, a refusal as a deserialization error that
/// holds the parser's error.
pub fn number_or_error<T>(parsed: core::result::Result<T, ParseIntError>) -> (r: core::result::Result<
    T,
    Error,
>)
    ensures
        match parsed {
            Ok(v) => r == Ok::<T, Error>(v),
            Err(e) => r == Err::<T, Error>(
                Error(Box::new(ErrorKind::Deserialized(DeserializedError::ParseInt(e)))),
            ),
        },
{
    match parsed {
        Ok(v) => Ok(v),
        Err(e) => Err(Error(Box::new(ErrorKind::Deserialized(DeserializedError::ParseInt(e))))),
    }
}

/// The error that reports `contents` as a negative numeral.
fn negative_error(contents: &str) -> (error: Error)
    ensures
        error.is_deserialized_custom(negative_message(contents@)),
{
    let mut msg = String::from_str("Can not parse ");
    msg.append(trim(contents));
    msg.append(" to an unsigned number.");
    Error::deserialized_custom(msg)
}

/// Whether `contents`, whitespace around it aside, begins with a minus sign.
fn has_minus_sign(contents: &str) -> (negative: bool)
    ensures
        negative == is_negative_numeral(contents@),
{
    proof {
        reveal_strlit("-");
    }
    assert("-"@ =~= seq!['-']);
    has_prefix(trim(contents), "-")
}

/// The number in the content of an attribute file that holds an unsigned
/// 8-bit number. The numeral may be decimal or carry a `0x`, `0o` or `0b`
/// prefix; whitespace around it, such as the final newline, does not count.
/// A numeral with a minus sign, or one that the parser refuses, is a
/// deserialization error.
pub fn read_to_u8(contents: &str) -> (r: core::result::Result<u8, Error>)
    ensures
        match r {
            Ok(v) => u8_value(contents@) == Some(v),
            Err(e) => u8_value(contents@) is None && if is_negative_numeral(contents@) {
                e.is_deserialized_custom(negative_message(contents@))
            } else {
                *e.0 matches ErrorKind::Deserialized(DeserializedError::ParseInt(_))
            },
        },
{
    if has_minus_sign(contents) {
        return Err(negative_error(contents));
    }
    number_or_error(parse_u8(contents))
}

/// The number in the content of an attribute file that holds an unsigned
/// 16-bit number. See [`read_to_u8`].
pub fn read_to_u16(contents: &str) -> (r: core::result::Result<u16, Error>)
    ensures
        match r {
            Ok(v) => u16_value(contents@) == Some(v),
            Err(e) => u16_value(contents@) is None && if is_negative_numeral(contents@) {
                e.is_deserialized_custom(negative_message(contents@))
            } else {
                *e.0 matches ErrorKind::Deserialized(DeserializedError::ParseInt(_))
            },
        },
{
    if has_minus_sign(contents) {
        return Err(negative_error(contents));
    }
    number_or_error(parse_u16(contents))
}

/// The truth value in the content of an attribute file: `1` and `true` stand
/// for true, `0` and `false` for false, whitespace around them aside.
/// Anything else is a deserialization error whose message quotes the
/// content.
pub fn read_to_bool(contents: &str) -> (r: core::result::Result<bool, Error>)
    ensures
        match r {
            Ok(b) => truth_value(contents@) == Some(b),
            Err(e) => truth_value(contents@) is None && e.is_deserialized_custom(
                not_boolean_message(contents@),
            ),
        },
{
    proof {
        reveal_strlit("1");
        reveal_strlit("0");
        reveal_strlit("true");
        reveal_strlit("false");
    }
    assert("1"@ =~= seq!['1']);
    assert("0"@ =~= seq!['0']);
    assert("true"@ =~= seq!['t', 'r', 'u', 'e']);
    assert("false"@ =~= seq!['f', 'a', 'l', 's', 'e']);
    let s = trim(contents);
    if same_text(s, "1") || same_text(s, "true") {
        Ok(true)
    } else if same_text(s, "0") || same_text(s, "false") {
        Ok(false)
    } else {
        let mut msg = String::from_str("Can not parse ");
        msg.append(s);
        msg.append(" to boolean.");
        Err(Error::deserialized_custom(msg))
    }
}

/// A decimal numeral is made of digits, has no leading zero unless it is
/// `0`, and its digits have the value of the number.
pub proof fn lemma_decimal_is_plain(n: nat)
    ensures
        decimal(n).len() >= 1,
        forall|i: int| 0 <= i < decimal(n).len() ==> '0' <= #[trigger] decimal(n)[i] <= '9',
        n >= 1 ==> decimal(n)[0] != '0',
        digits_value(decimal(n)) == Some(n),
        plain_decimal(decimal(n)) == Some(n),
    decreases n,
{
    let d = decimal(n);
    if n >= 10 {
        lemma_decimal_is_plain(n / 10);
        let high = decimal(n / 10);
        assert(d.drop_last() =~= high);
        assert(d.last() == crate::text::digit_char((n % 10) as int));
        assert(d[0] == high[0]);
        assert(digit_value(d.last()) == Some(n % 10));
    } else {
        assert(digit_value(d[0]) == Some(n));
    }
}

/// A decimal numeral has no whitespace around it and no minus sign.
pub proof fn lemma_decimal_is_trimmed(n: nat)
    ensures
        trimmed(decimal(n)) == decimal(n),
        !is_negative_numeral(decimal(n)),
{
    lemma_decimal_is_plain(n);
    let d = decimal(n);
    assert('0' <= d[0] <= '9');
    assert('0' <= d[d.len() - 1] <= '9');
    assert(!crate::text::is_whitespace(d[0]));
    assert(!crate::text::is_whitespace(d.last()));
    assert(d.subrange(0, 1)[0] == d[0]);
    assert(seq!['-'][0] == '-');
    assert(d.subrange(0, 1) != seq!['-']);
}

/// A number that was written to an attribute file as a decimal numeral is
/// read back as the same number.
pub proof fn lemma_written_number_reads_back(n: nat)
    ensures
        n <= u8::MAX ==> u8_value(decimal(n)) == Some(n as u8),
        n <= u16::MAX ==> u16_value(decimal(n)) == Some(n as u16),
{
    lemma_decimal_is_plain(n);
    lemma_decimal_is_trimmed(n);
}

/// A truth value that was written to an attribute file as `1` or `0` is
/// read back as the same truth value.
pub proof fn lemma_written_flag_reads_back(on: bool)
    ensures
        truth_value(crate::configfs::flag_text(on)) == Some(on),
{
    let text = crate::configfs::flag_text(on);
    assert(!crate::text::is_whitespace('1') && !crate::text::is_whitespace('0'));
    assert(crate::text::trimmed_start(text) == text);
    assert(trimmed(text) == text);
    assert(seq!['1'] != seq!['0']) by {
        assert(seq!['1'][0] != seq!['0'][0]);
    }
    assert(seq!['1'].len() != seq!['f', 'a', 'l', 's', 'e'].len());
    assert(seq!['0'].len() != seq!['t', 'r', 'u', 'e'].len());
}

} // verus!
