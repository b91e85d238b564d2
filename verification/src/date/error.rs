//! The error shared by every fallible constructor of this crate.
use crate::date::numeral::{decimal_text, push_decimal};
use std::num::ParseIntError;
use vstd::prelude::*;
use vstd::std_specs::convert::FromSpecImpl;

verus! {

/// Why a date or time value could not be built.
#[derive(Debug)]
pub enum DateTimeError {
    /// A numeric field was not a numeral that the standard library's integer
    /// parsing accepts. Holds that parsing's own error.
    Parse(ParseIntError),
    /// A numeric field held a number above the maximum of its unit.
    Overflow {
        /// The name of the unit.
        field: &'static str,
        /// The largest value that the unit accepts.
        max: usize,
    },
    /// A text did not have the form `YYYY-MM-DDThh:mm:ss` with month and day
    /// counted from one: it was too short to hold all six fields, a field
    /// would have begun or ended inside a character, or the month or the day
    /// was zero.
    Malformed,
}

/// Whether `result` is the failure with `error`.
pub open spec fn fails_with<T>(result: Result<T, DateTimeError>, error: DateTimeError) -> bool {
    result == Err::<T, DateTimeError>(error)
}

/// The message that the standard library prints for `error`.
pub uninterp spec fn parse_error_text(error: ParseIntError) -> Seq<char>;

/// Renders `error` with the standard library's `ToString::to_string`, that
/// is with the `Display` of `ParseIntError`.
///
/// Trusted, not proved: the message depends on `error` alone.
#[verifier::external_body]
fn describe(error: &ParseIntError) -> (text: String)
    ensures
        text@ == parse_error_text(*error),
{
    error.to_string()
}

impl DateTimeError {
    /// The message of this error: for a parse failure the message of the
    /// standard library's error, for an overflow
    /// `<field> must be between 0-<max>`.
    pub open spec fn text(&self) -> Seq<char> {
        match self {
            DateTimeError::Parse(error) => parse_error_text(*error),
            DateTimeError::Overflow { field, max } => field@ + " must be between 0-"@
                + decimal_text(*max as nat),
            DateTimeError::Malformed =>
                "text must have the form YYYY-MM-DDThh:mm:ss with month and day counted from 01"@,
        }
    }

    /// Renders the message of this error.
    pub fn to_string(&self) -> (text: String)
        ensures
            text@ == self.text(),
    {
        match self {
            DateTimeError::Parse(error) => describe(error),
            DateTimeError::Overflow { field, max } => {
                let mut text = String::new();
                text.append(field);
                text.append(" must be between 0-");
                push_decimal(&mut text, *max);
                text
            },
            DateTimeError::Malformed => {
                let mut text = String::new();
                text.append(
                    "text must have the form YYYY-MM-DDThh:mm:ss with month and day counted from 01",
                );
                text
            },
        }
    }
}

impl From<ParseIntError> for DateTimeError {
    /// The parse failure that holds `error`.
    fn from(error: ParseIntError) -> (wrapped: DateTimeError)
        ensures
            wrapped == DateTimeError::Parse(error),
    {
        DateTimeError::Parse(error)
    }
}

impl FromSpecImpl<ParseIntError> for DateTimeError {
    open spec fn obeys_from_spec() -> bool {
        true
    }

    open spec fn from_spec(error: ParseIntError) -> DateTimeError {
        DateTimeError::Parse(error)
    }
}

} // verus!
