//! The day of a month.
use crate::date::error::{fails_with, DateTimeError};
use crate::date::numeral::{numeral_value, numeral_within, parse_u8, u8_parse_error};
use std::convert::TryFrom;
use std::ops::{Add, Sub};
use std::str::FromStr;
use vstd::prelude::*;
use vstd::std_specs::convert::{FromSpec, FromSpecImpl, TryFromSpecImpl};
use vstd::std_specs::ops::{AddSpecImpl, SubSpecImpl};
use vstd::string::StringSliceAdditionalSpecFns;

verus! {

/// A day: a small number that checked construction keeps between 0 and
/// [`Day::MAX`].
///
/// A `Day` is not interchangeable with a value of any other unit.
/// Unchecked construction and the operators `+` and `-` do not keep the
/// range: who uses them answers for it.
#[derive(Debug, Clone, Copy, PartialEq, Eq, Hash, Structural)]
pub struct Day(u8);

impl View for Day {
    type V = u8;

    /// The number that this day holds.
    closed spec fn view(&self) -> u8 {
        self.0
    }
}

impl Day {
    /// The largest value that checked construction accepts.
    pub const MAX: u8 = 32;

    /// Whether this day is within its range.
    pub open spec fn is_valid(&self) -> bool {
        self@ <= Day::MAX
    }

    /// The day that holds `raw`, whatever `raw` is.
    pub closed spec fn spec_from_unchecked(raw: u8) -> Day {
        Day(raw)
    }

    /// Makes a day of `raw` without looking at it, also where `raw` is
    /// above [`Day::MAX`].
    #[verifier::when_used_as_spec(spec_from_unchecked)]
    pub fn from_unchecked(raw: u8) -> (day: Day)
        ensures
            day == Day::from_unchecked(raw),
            day@ == raw,
    {
        Day(raw)
    }

    /// The error of a number above [`Day::MAX`]: an overflow that names
    /// the unit and its maximum.
    pub open spec fn overflow() -> DateTimeError {
        DateTimeError::Overflow { field: "Day", max: 32 }
    }

    /// What checked construction makes of `raw`: the day that holds `raw`
    /// exactly where `raw` is at most 32, and above it the overflow error.
    pub open spec fn checked(raw: nat) -> Result<Day, DateTimeError> {
        if raw <= 32 {
            Ok(Day::from_unchecked(raw as u8))
        } else {
            Err(Day::overflow())
        }
    }

    /// What parsing makes of `text`: where `text` is not a numeral, or
    /// stands for more than a `u8` holds, a parse failure with the error of
    /// the standard library's parsing; else what checked construction makes
    /// of its number.
    pub open spec fn spec_parse(text: Seq<u8>) -> Result<Day, DateTimeError> {
        match numeral_within(text, u8::MAX as nat) {
            Some(number) => Day::checked(number),
            None => Err(DateTimeError::Parse(u8_parse_error(text))),
        }
    }

    /// Parses a day from a decimal numeral.
    pub fn parse(text: &str) -> (parsed: Result<Day, DateTimeError>)
        ensures
            parsed == Day::spec_parse(text.spec_bytes()),
            parsed matches Ok(day) ==> day.is_valid(),
    {
        match parse_u8(text) {
            Ok(raw) => Day::try_from(raw),
            Err(error) => Err(DateTimeError::from(error)),
        }
    }

    /// Unchecked construction keeps the raw value, and both conversions back
    /// to an integer return it unchanged, also above [`Day::MAX`].
    pub proof fn law_unchecked_round_trip(raw: u8)
        ensures
            Day::from_unchecked(raw)@ == raw,
            <u8 as FromSpec<Day>>::from_spec(Day::from_unchecked(raw)) == raw,
            <usize as FromSpec<Day>>::from_spec(Day::from_unchecked(raw)) == raw,
    {
    }

    /// A numeral above 32 is rejected: as an overflow that names the unit
    /// and its maximum where a `u8` holds its number, and as a parse
    /// failure where none does.
    pub proof fn law_numeral_out_of_range(text: Seq<u8>, number: nat)
        requires
            numeral_value(text) == Some(number),
            number > 32,
        ensures
            number <= u8::MAX ==> fails_with(Day::spec_parse(text), Day::overflow()),
            number > u8::MAX ==> Day::spec_parse(text) matches Err(DateTimeError::Parse(_)),
    {
    }
}

impl Default for Day {
    /// The day that holds 0.
    fn default() -> (day: Day)
        ensures
            day == Day::from_unchecked(0),
            day@ == 0,
    {
        Day(0)
    }
}

impl FromStr for Day {
    type Err = DateTimeError;

    /// Parses a day from a decimal numeral, as [`Day::parse`] does.
    fn from_str(text: &str) -> (parsed: Result<Day, DateTimeError>)
        ensures
            parsed == Day::spec_parse(text.spec_bytes()),
            parsed matches Ok(day) ==> day.is_valid(),
    {
        Day::parse(text)
    }
}

impl TryFrom<u8> for Day {
    type Error = DateTimeError;

    /// Makes a day of `raw` if `raw` is at most [`Day::MAX`].
    fn try_from(raw: u8) -> (checked: Result<Day, DateTimeError>)
        ensures
            checked == Day::checked(raw as nat),
            checked is Ok <==> raw <= 32,
            checked matches Ok(day) ==> day@ == raw && day.is_valid(),
    {
        if raw > Day::MAX {
            Err(DateTimeError::Overflow { field: "Day", max: 32 })
        } else {
            Ok(Day(raw))
        }
    }
}

impl TryFromSpecImpl<u8> for Day {
    open spec fn obeys_try_from_spec() -> bool {
        true
    }

    open spec fn try_from_spec(raw: u8) -> Result<Day, DateTimeError> {
        Day::checked(raw as nat)
    }
}

impl TryFrom<usize> for Day {
    type Error = DateTimeError;

    /// Makes a day of `raw` if `raw` is at most [`Day::MAX`].
    fn try_from(raw: usize) -> (checked: Result<Day, DateTimeError>)
        ensures
            checked == Day::checked(raw as nat),
            checked is Ok <==> raw <= 32,
            checked matches Ok(day) ==> day@ == raw && day.is_valid(),
    {
        if raw > Day::MAX as usize {
            Err(DateTimeError::Overflow { field: "Day", max: 32 })
        } else {
            Ok(Day(raw as u8))
        }
    }
}

impl TryFromSpecImpl<usize> for Day {
    open spec fn obeys_try_from_spec() -> bool {
        true
    }

    open spec fn try_from_spec(raw: usize) -> Result<Day, DateTimeError> {
        Day::checked(raw as nat)
    }
}

impl From<Day> for u8 {
    /// The number that `day` holds.
    fn from(day: Day) -> (raw: u8)
        ensures
            raw == day@,
    {
        day.0
    }
}

impl FromSpecImpl<Day> for u8 {
    open spec fn obeys_from_spec() -> bool {
        true
    }

    open spec fn from_spec(day: Day) -> u8 {
        day@
    }
}

impl From<Day> for usize {
    /// The number that `day` holds.
    fn from(day: Day) -> (raw: usize)
        ensures
            raw == day@,
    {
        day.0 as usize
    }
}

impl FromSpecImpl<Day> for usize {
    open spec fn obeys_from_spec() -> bool {
        true
    }

    open spec fn from_spec(day: Day) -> usize {
        day@ as usize
    }
}

impl Add<u8> for Day {
    type Output = Day;

    /// The day that holds `other` more. The sum is not held against
    /// [`Day::MAX`]; the caller sees to it that it fits in a `u8`.
    fn add(self, other: u8) -> (sum: Day)
        ensures
            sum@ == self@ + other,
    {
        Day(self.0 + other)
    }
}

impl AddSpecImpl<u8> for Day {
    open spec fn obeys_add_spec() -> bool {
        true
    }

    /// The sum fits in a `u8`.
    open spec fn add_req(self, other: u8) -> bool {
        self@ + other <= u8::MAX
    }

    open spec fn add_spec(self, other: u8) -> Day {
        Day::from_unchecked((self@ + other) as u8)
    }
}

impl Sub<u8> for Day {
    type Output = Day;

    /// The day that holds `other` less. The caller sees to it that
    /// `other` is not more than the day holds.
    fn sub(self, other: u8) -> (difference: Day)
        ensures
            difference@ == self@ - other,
    {
        Day(self.0 - other)
    }
}

impl SubSpecImpl<u8> for Day {
    open spec fn obeys_sub_spec() -> bool {
        true
    }

    /// The difference is not below zero.
    open spec fn sub_req(self, other: u8) -> bool {
        other <= self@
    }

    open spec fn sub_spec(self, other: u8) -> Day {
        Day::from_unchecked((self@ - other) as u8)
    }
}

} // verus!
