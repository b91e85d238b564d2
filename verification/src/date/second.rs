//! The second of a minute.
use crate::date::error::{fails_with, DateTimeError};
use crate::date::numeral::{numeral_value, numeral_within, parse_u8, u8_parse_error};
use std::convert::TryFrom;
use std::ops::{Add, Sub};
use std::str::FromStr;
use vstd::prelude::*;
use vstd::std_specs::convert::{FromSpec, FromSpecImpl, TryFromSpecImpl};
use vstd::std_specs::ops::{AddSpecImpl, SubSpecImpl};
use vstd::string::StringSliceAdditionalSpecFns;

verus! {

/// A second: a small number that checked construction keeps between 0 and
/// [`Second::MAX`].
///
/// A `Second` is not interchangeable with a value of any other unit.
/// Unchecked construction and the operators `+` and `-` do not keep the
/// range: who uses them answers for it.
#[derive(Debug, Clone, Copy, PartialEq, Eq, Hash, Structural)]
pub struct Second(u8);

impl View for Second {
    type V = u8;

    /// The number that this second holds.
    closed spec fn view(&self) -> u8 {
        self.0
    }
}

impl Second {
    /// The largest value that checked construction accepts.
    pub const MAX: u8 = 60;

    /// Whether this second is within its range.
    pub open spec fn is_valid(&self) -> bool {
        self@ <= Second::MAX
    }

    /// The second that holds `raw`, whatever `raw` is.
    pub closed spec fn spec_from_unchecked(raw: u8) -> Second {
        Second(raw)
    }

    /// Makes a second of `raw` without looking at it, also where `raw` is
    /// above [`Second::MAX`].
    #[verifier::when_used_as_spec(spec_from_unchecked)]
    pub fn from_unchecked(raw: u8) -> (second: Second)
        ensures
            second == Second::from_unchecked(raw),
            second@ == raw,
    {
        Second(raw)
    }

    /// The error of a number above [`Second::MAX`]: an overflow that names
    /// the unit and its maximum.
    pub open spec fn overflow() -> DateTimeError {
        DateTimeError::Overflow { field: "Second", max: 60 }
    }

    /// What checked construction makes of `raw`: the second that holds `raw`
    /// exactly where `raw` is at most 60, and above it the overflow error.
    pub open spec fn checked(raw: nat) -> Result<Second, DateTimeError> {
        if raw <= 60 {
            Ok(Second::from_unchecked(raw as u8))
        } else {
            Err(Second::overflow())
        }
    }

    /// What parsing makes of `text`: where `text` is not a numeral, or
    /// stands for more than a `u8` holds, a parse failure with the error of
    /// the standard library's parsing; else what checked construction makes
    /// of its number.
    pub open spec fn spec_parse(text: Seq<u8>) -> Result<Second, DateTimeError> {
        match numeral_within(text, u8::MAX as nat) {
            Some(number) => Second::checked(number),
            None => Err(DateTimeError::Parse(u8_parse_error(text))),
        }
    }

    /// Parses a second from a decimal numeral.
    pub fn parse(text: &str) -> (parsed: Result<Second, DateTimeError>)
        ensures
            parsed == Second::spec_parse(text.spec_bytes()),
            parsed matches Ok(second) ==> second.is_valid(),
    {
        match parse_u8(text) {
            Ok(raw) => Second::try_from(raw),
            Err(error) => Err(DateTimeError::from(error)),
        }
    }

    /// Unchecked construction keeps the raw value, and both conversions back
    /// to an integer return it unchanged, also above [`Second::MAX`].
    pub proof fn law_unchecked_round_trip(raw: u8)
        ensures
            Second::from_unchecked(raw)@ == raw,
            <u8 as FromSpec<Second>>::from_spec(Second::from_unchecked(raw)) == raw,
            <usize as FromSpec<Second>>::from_spec(Second::from_unchecked(raw)) == raw,
    {
    }

    /// A numeral above 60 is rejected: as an overflow that names the unit
    /// and its maximum where a `u8` holds its number, and as a parse
    /// failure where none does.
    pub proof fn law_numeral_out_of_range(text: Seq<u8>, number: nat)
        requires
            numeral_value(text) == Some(number),
            number > 60,
        ensures
            number <= u8::MAX ==> fails_with(Second::spec_parse(text), Second::overflow()),
            number > u8::MAX ==> Second::spec_parse(text) matches Err(DateTimeError::Parse(_)),
    {
    }
}

impl Default for Second {
    /// The second that holds 0.
    fn default() -> (second: Second)
        ensures
            second == Second::from_unchecked(0),
            second@ == 0,
    {
        Second(0)
    }
}

impl FromStr for Second {
    type Err = DateTimeError;

    /// Parses a second from a decimal numeral, as [`Second::parse`] does.
    fn from_str(text: &str) -> (parsed: Result<Second, DateTimeError>)
        ensures
            parsed == Second::spec_parse(text.spec_bytes()),
            parsed matches Ok(second) ==> second.is_valid(),
    {
        Second::parse(text)
    }
}

impl TryFrom<u8> for Second {
    type Error = DateTimeError;

    /// Makes a second of `raw` if `raw` is at most [`Second::MAX`].
    fn try_from(raw: u8) -> (checked: Result<Second, DateTimeError>)
        ensures
            checked == Second::checked(raw as nat),
            checked is Ok <==> raw <= 60,
            checked matches Ok(second) ==> second@ == raw && second.is_valid(),
    {
        if raw > Second::MAX {
            Err(DateTimeError::Overflow { field: "Second", max: 60 })
        } else {
            Ok(Second(raw))
        }
    }
}

impl TryFromSpecImpl<u8> for Second {
    open spec fn obeys_try_from_spec() -> bool {
        true
    }

    open spec fn try_from_spec(raw: u8) -> Result<Second, DateTimeError> {
        Second::checked(raw as nat)
    }
}

impl TryFrom<usize> for Second {
    type Error = DateTimeError;

    /// Makes a second of `raw` if `raw` is at most [`Second::MAX`].
    fn try_from(raw: usize) -> (checked: Result<Second, DateTimeError>)
        ensures
            checked == Second::checked(raw as nat),
            checked is Ok <==> raw <= 60,
            checked matches Ok(second) ==> second@ == raw && second.is_valid(),
    {
        if raw > Second::MAX as usize {
            Err(DateTimeError::Overflow { field: "Second", max: 60 })
        } else {
            Ok(Second(raw as u8))
        }
    }
}

impl TryFromSpecImpl<usize> for Second {
    open spec fn obeys_try_from_spec() -> bool {
        true
    }

    open spec fn try_from_spec(raw: usize) -> Result<Second, DateTimeError> {
        Second::checked(raw as nat)
    }
}

impl From<Second> for u8 {
    /// The number that `second` holds.
    fn from(second: Second) -> (raw: u8)
        ensures
            raw == second@,
    {
        second.0
    }
}

impl FromSpecImpl<Second> for u8 {
    open spec fn obeys_from_spec() -> bool {
        true
    }

    open spec fn from_spec(second: Second) -> u8 {
        second@
    }
}

impl From<Second> for usize {
    /// The number that `second` holds.
    fn from(second: Second) -> (raw: usize)
        ensures
            raw == second@,
    {
        second.0 as usize
    }
}

impl FromSpecImpl<Second> for usize {
    open spec fn obeys_from_spec() -> bool {
        true
    }

    open spec fn from_spec(second: Second) -> usize {
        second@ as usize
    }
}

impl Add<u8> for Second {
    type Output = Second;

    /// The second that holds `other` more. The sum is not held against
    /// [`Second::MAX`]; the caller sees to it that it fits in a `u8`.
    fn add(self, other: u8) -> (sum: Second)
        ensures
            sum@ == self@ + other,
    {
        Second(self.0 + other)
    }
}

impl AddSpecImpl<u8> for Second {
    open spec fn obeys_add_spec() -> bool {
        true
    }

    /// The sum fits in a `u8`.
    open spec fn add_req(self, other: u8) -> bool {
        self@ + other <= u8::MAX
    }

    open spec fn add_spec(self, other: u8) -> Second {
        Second::from_unchecked((self@ + other) as u8)
    }
}

impl Sub<u8> for Second {
    type Output = Second;

    /// The second that holds `other` less. The caller sees to it that
    /// `other` is not more than the second holds.
    fn sub(self, other: u8) -> (difference: Second)
        ensures
            difference@ == self@ - other,
    {
        Second(self.0 - other)
    }
}

impl SubSpecImpl<u8> for Second {
    open spec fn obeys_sub_spec() -> bool {
        true
    }

    /// The difference is not below zero.
    open spec fn sub_req(self, other: u8) -> bool {
        other <= self@
    }

    open spec fn sub_spec(self, other: u8) -> Second {
        Second::from_unchecked((self@ - other) as u8)
    }
}

} // verus!
