//! The hour of a day.
use crate::date::error::{fails_with, DateTimeError};
use crate::date::numeral::{numeral_value, numeral_within, parse_u8, u8_parse_error};
use std::convert::TryFrom;
use std::ops::{Add, Sub};
use std::str::FromStr;
use vstd::prelude::*;
use vstd::std_specs::convert::{FromSpec, FromSpecImpl, TryFromSpecImpl};
use vstd::std_specs::ops::{AddSpecImpl, SubSpecImpl};
use vstd::string::StringSliceAdditionalSpecFns;

verus! {

/// An hour: a small number that checked construction keeps between 0 and
/// [`Hour::MAX`].
///
/// An `Hour` is not interchangeable with a value of any other unit.
/// Unchecked construction and the operators `+` and `-` do not keep the
/// range: who uses them answers for it.
#[derive(Debug, Clone, Copy, PartialEq, Eq, Hash, Structural)]
pub struct Hour(u8);

impl View for Hour {
    type V = u8;

    /// The number that this hour holds.
    closed spec fn view(&self) -> u8 {
        self.0
    }
}

impl Hour {
    /// The largest value that checked construction accepts.
    pub const MAX: u8 = 24;

    /// Whether this hour is within its range.
    pub open spec fn is_valid(&self) -> bool {
        self@ <= Hour::MAX
    }

    /// The hour that holds `raw`, whatever `raw` is.
    pub closed spec fn spec_from_unchecked(raw: u8) -> Hour {
        Hour(raw)
    }

    /// Makes an hour of `raw` without looking at it, also where `raw` is
    /// above [`Hour::MAX`].
    #[verifier::when_used_as_spec(spec_from_unchecked)]
    pub fn from_unchecked(raw: u8) -> (hour: Hour)
        ensures
            hour == Hour::from_unchecked(raw),
            hour@ == raw,
    {
        Hour(raw)
    }

    /// The error of a number above [`Hour::MAX`]: an overflow that names
    /// the unit and its maximum.
    pub open spec fn overflow() -> DateTimeError {
        DateTimeError::Overflow { field: "Hour", max: 24 }
    }

    /// What checked construction makes of `raw`: the hour that holds `raw`
    /// exactly where `raw` is at most 24, and above it the overflow error.
    pub open spec fn checked(raw: nat) -> Result<Hour, DateTimeError> {
        if raw <= 24 {
            Ok(Hour::from_unchecked(raw as u8))
        } else {
            Err(Hour::overflow())
        }
    }

    /// What parsing makes of `text`: where `text` is not a numeral, or
    /// stands for more than a `u8` holds, a parse failure with the error of
    /// the standard library's parsing; else what checked construction makes
    /// of its number.
    pub open spec fn spec_parse(text: Seq<u8>) -> Result<Hour, DateTimeError> {
        match numeral_within(text, u8::MAX as nat) {
            Some(number) => Hour::checked(number),
            None => Err(DateTimeError::Parse(u8_parse_error(text))),
        }
    }

    /// Parses an hour from a decimal numeral.
    pub fn parse(text: &str) -> (parsed: Result<Hour, DateTimeError>)
        ensures
            parsed == Hour::spec_parse(text.spec_bytes()),
            parsed matches Ok(hour) ==> hour.is_valid(),
    {
        match parse_u8(text) {
            Ok(raw) => Hour::try_from(raw),
            Err(error) => Err(DateTimeError::from(error)),
        }
    }

    /// Unchecked construction keeps the raw value, and both conversions back
    /// to an integer return it unchanged, also above [`Hour::MAX`].
    pub proof fn law_unchecked_round_trip(raw: u8)
        ensures
            Hour::from_unchecked(raw)@ == raw,
            <u8 as FromSpec<Hour>>::from_spec(Hour::from_unchecked(raw)) == raw,
            <usize as FromSpec<Hour>>::from_spec(Hour::from_unchecked(raw)) == raw,
    {
    }

    /// A numeral above 24 is rejected: as an overflow that names the unit
    /// and its maximum where a `u8` holds its number, and as a parse
    /// failure where none does.
    pub proof fn law_numeral_out_of_range(text: Seq<u8>, number: nat)
        requires
            numeral_value(text) == Some(number),
            number > 24,
        ensures
            number <= u8::MAX ==> fails_with(Hour::spec_parse(text), Hour::overflow()),
            number > u8::MAX ==> Hour::spec_parse(text) matches Err(DateTimeError::Parse(_)),
    {
    }
}

impl Default for Hour {
    /// The hour that holds 0.
    fn default() -> (hour: Hour)
        ensures
            hour == Hour::from_unchecked(0),
            hour@ == 0,
    {
        Hour(0)
    }
}

impl FromStr for Hour {
    type Err = DateTimeError;

    /// Parses an hour from a decimal numeral, as [`Hour::parse`] does.
    fn from_str(text: &str) -> (parsed: Result<Hour, DateTimeError>)
        ensures
            parsed == Hour::spec_parse(text.spec_bytes()),
            parsed matches Ok(hour) ==> hour.is_valid(),
    {
        Hour::parse(text)
    }
}

impl TryFrom<u8> for Hour {
    type Error = DateTimeError;

    /// Makes an hour of `raw` if `raw` is at most [`Hour::MAX`].
    fn try_from(raw: u8) -> (checked: Result<Hour, DateTimeError>)
        ensures
            checked == Hour::checked(raw as nat),
            checked is Ok <==> raw <= 24,
            checked matches Ok(hour) ==> hour@ == raw && hour.is_valid(),
    {
        if raw > Hour::MAX {
            Err(DateTimeError::Overflow { field: "Hour", max: 24 })
        } else {
            Ok(Hour(raw))
        }
    }
}

impl TryFromSpecImpl<u8> for Hour {
    open spec fn obeys_try_from_spec() -> bool {
        true
    }

    open spec fn try_from_spec(raw: u8) -> Result<Hour, DateTimeError> {
        Hour::checked(raw as nat)
    }
}

impl TryFrom<usize> for Hour {
    type Error = DateTimeError;

    /// Makes an hour of `raw` if `raw` is at most [`Hour::MAX`].
    fn try_from(raw: usize) -> (checked: Result<Hour, DateTimeError>)
        ensures
            checked == Hour::checked(raw as nat),
            checked is Ok <==> raw <= 24,
            checked matches Ok(hour) ==> hour@ == raw && hour.is_valid(),
    {
        if raw > Hour::MAX as usize {
            Err(DateTimeError::Overflow { field: "Hour", max: 24 })
        } else {
            Ok(Hour(raw as u8))
        }
    }
}

impl TryFromSpecImpl<usize> for Hour {
    open spec fn obeys_try_from_spec() -> bool {
        true
    }

    open spec fn try_from_spec(raw: usize) -> Result<Hour, DateTimeError> {
        Hour::checked(raw as nat)
    }
}

impl From<Hour> for u8 {
    /// The number that `hour` holds.
    fn from(hour: Hour) -> (raw: u8)
        ensures
            raw == hour@,
    {
        hour.0
    }
}

impl FromSpecImpl<Hour> for u8 {
    open spec fn obeys_from_spec() -> bool {
        true
    }

    open spec fn from_spec(hour: Hour) -> u8 {
        hour@
    }
}

impl From<Hour> for usize {
    /// The number that `hour` holds.
    fn from(hour: Hour) -> (raw: usize)
        ensures
            raw == hour@,
    {
        hour.0 as usize
    }
}

impl FromSpecImpl<Hour> for usize {
    open spec fn obeys_from_spec() -> bool {
        true
    }

    open spec fn from_spec(hour: Hour) -> usize {
        hour@ as usize
    }
}

impl Add<u8> for Hour {
    type Output = Hour;

    /// The hour that holds `other` more. The sum is not held against
    /// [`Hour::MAX`]; the caller sees to it that it fits in a `u8`.
    fn add(self, other: u8) -> (sum: Hour)
        ensures
            sum@ == self@ + other,
    {
        Hour(self.0 + other)
    }
}

impl AddSpecImpl<u8> for Hour {
    open spec fn obeys_add_spec() -> bool {
        true
    }

    /// The sum fits in a `u8`.
    open spec fn add_req(self, other: u8) -> bool {
        self@ + other <= u8::MAX
    }

    open spec fn add_spec(self, other: u8) -> Hour {
        Hour::from_unchecked((self@ + other) as u8)
    }
}

impl Sub<u8> for Hour {
    type Output = Hour;

    /// The hour that holds `other` less. The caller sees to it that
    /// `other` is not more than the hour holds.
    fn sub(self, other: u8) -> (difference: Hour)
        ensures
            difference@ == self@ - other,
    {
        Hour(self.0 - other)
    }
}

impl SubSpecImpl<u8> for Hour {
    open spec fn obeys_sub_spec() -> bool {
        true
    }

    /// The difference is not below zero.
    open spec fn sub_req(self, other: u8) -> bool {
        other <= self@
    }

    open spec fn sub_spec(self, other: u8) -> Hour {
        Hour::from_unchecked((self@ - other) as u8)
    }
}

} // verus!
