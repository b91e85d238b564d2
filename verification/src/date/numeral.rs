//! Decimal numerals: the numbers that a text stands for, and the text that a
//! number is written as.
//!
//! Texts are modelled as sequences of bytes, the UTF-8 encoding of a `str`.
//! A numeral is an optional plus sign followed by one or more ASCII digits.
use std::num::ParseIntError;
use vstd::prelude::*;
use vstd::string::StringSliceAdditionalSpecFns;

verus! {

/// The error of the standard library's integer parsing. Nothing is known of
/// its contents; it is carried into [`DateTimeError::Parse`] as it is.
///
/// [`DateTimeError::Parse`]: crate::date::error::DateTimeError::Parse
#[verifier::external_type_specification]
#[verifier::external_body]
pub struct ExParseIntError(ParseIntError);

/// Whether `byte` is one of the ASCII digits `0` to `9`.
pub open spec fn is_digit(byte: u8) -> bool {
    0x30 <= byte <= 0x39
}

/// Whether every byte of `digits` is an ASCII digit.
pub open spec fn all_digits(digits: Seq<u8>) -> bool {
    forall|i: int| 0 <= i < digits.len() ==> is_digit(#[trigger] digits[i])
}

/// The number that a sequence of ASCII digits stands for, read in base ten
/// with the most significant digit first. The empty sequence stands for 0.
pub open spec fn digits_value(digits: Seq<u8>) -> nat
    decreases digits.len(),
{
    if digits.len() == 0 {
        0
    } else {
        10 * digits_value(digits.drop_last()) + (digits.last() - 0x30) as nat
    }
}

/// `text` without its leading plus sign, if it has one.
pub open spec fn unsigned_part(text: Seq<u8>) -> Seq<u8> {
    if text.len() > 0 && text[0] == 0x2b {
        text.drop_first()
    } else {
        text
    }
}

/// The number that `text` stands for, if `text` is a numeral: an optional
/// plus sign followed by at least one digit and nothing else.
pub open spec fn numeral_value(text: Seq<u8>) -> Option<nat> {
    let digits = unsigned_part(text);
    if digits.len() > 0 && all_digits(digits) {
        Some(digits_value(digits))
    } else {
        None
    }
}

/// A text that holds, anywhere but as a plus sign in front, a byte that is
/// not a digit is no numeral.
pub proof fn lemma_non_digit_is_no_numeral(text: Seq<u8>, at: int)
    requires
        0 <= at < text.len(),
        !is_digit(text[at]),
        !(at == 0 && text[0] == 0x2b),
    ensures
        numeral_value(text) is None,
{
    let digits = unsigned_part(text);
    if text[0] == 0x2b {
        assert(digits[at - 1] == text[at]);
    } else {
        assert(digits[at] == text[at]);
    }
}

/// The number that `text` stands for, if `text` is a numeral and that number
/// is at most `limit`.
pub open spec fn numeral_within(text: Seq<u8>, limit: nat) -> Option<nat> {
    match numeral_value(text) {
        Some(value) => if value <= limit {
            Some(value)
        } else {
            None
        },
        None => None,
    }
}

/// The error with which the standard library refuses to parse `text` as a
/// `u8`, where it refuses.
pub uninterp spec fn u8_parse_error(text: Seq<u8>) -> ParseIntError;

/// The error with which the standard library refuses to parse `text` as a
/// `usize`, where it refuses.
pub uninterp spec fn usize_parse_error(text: Seq<u8>) -> ParseIntError;

/// Parses `text` as a `u8` with the standard library's `str::parse::<u8>`.
///
/// Trusted, not proved: the standard library accepts exactly an optional
/// plus sign followed by one or more ASCII digits whose value fits in a
/// `u8`, and returns that value; on any other text it returns an error,
/// which depends on the bytes of `text` alone.
#[verifier::external_body]
pub(crate) fn parse_u8(text: &str) -> (parsed: Result<u8, ParseIntError>)
    ensures
        match parsed {
            Ok(value) => numeral_within(text.spec_bytes(), u8::MAX as nat) == Some(value as nat),
            Err(error) => numeral_within(text.spec_bytes(), u8::MAX as nat) is None && error
                == u8_parse_error(text.spec_bytes()),
        },
{
    text.parse::<u8>()
}

/// Parses `text` as a `usize` with the standard library's
/// `str::parse::<usize>`.
///
/// Trusted, not proved: the standard library accepts exactly an optional
/// plus sign followed by one or more ASCII digits whose value fits in a
/// `usize`, and returns that value; on any other text it returns an error,
/// which depends on the bytes of `text` alone.
#[verifier::external_body]
pub(crate) fn parse_usize(text: &str) -> (parsed: Result<usize, ParseIntError>)
    ensures
        match parsed {
            Ok(value) => numeral_within(text.spec_bytes(), usize::MAX as nat) == Some(
                value as nat,
            ),
            Err(error) => numeral_within(text.spec_bytes(), usize::MAX as nat) is None && error
                == usize_parse_error(text.spec_bytes()),
        },
{
    text.parse::<usize>()
}

/// The character that the digit `digit` is written as.
pub open spec fn digit_char(digit: nat) -> char
    recommends
        digit < 10,
{
    (0x30 + digit) as char
}

/// The shortest decimal numeral of `value`, without a sign.
pub open spec fn decimal_text(value: nat) -> Seq<char>
    decreases value,
{
    if value < 10 {
        seq![digit_char(value)]
    } else {
        decimal_text(value / 10).push(digit_char(value % 10))
    }
}

/// The one-character text of a digit.
fn digit_text(digit: usize) -> (text: &'static str)
    requires
        digit < 10,
    ensures
        text@ == seq![digit_char(digit as nat)],
{
    proof {
        reveal_strlit("0");
        reveal_strlit("1");
        reveal_strlit("2");
        reveal_strlit("3");
        reveal_strlit("4");
        reveal_strlit("5");
        reveal_strlit("6");
        reveal_strlit("7");
        reveal_strlit("8");
        reveal_strlit("9");
    }
    let text = if digit == 0 {
        "0"
    } else if digit == 1 {
        "1"
    } else if digit == 2 {
        "2"
    } else if digit == 3 {
        "3"
    } else if digit == 4 {
        "4"
    } else if digit == 5 {
        "5"
    } else if digit == 6 {
        "6"
    } else if digit == 7 {
        "7"
    } else if digit == 8 {
        "8"
    } else {
        "9"
    };
    assert(text@ =~= seq![digit_char(digit as nat)]);
    text
}

/// Appends the decimal numeral of `value` to `out`.
pub(crate) fn push_decimal(out: &mut String, value: usize)
    ensures
        final(out)@ == old(out)@ + decimal_text(value as nat),
    decreases value,
{
    if value >= 10 {
        push_decimal(out, value / 10);
    }
    out.append(digit_text(value % 10));
}

} // verus!
