//! The day of the week.
use crate::date::error::{fails_with, DateTimeError};
use crate::date::numeral::{numeral_value, numeral_within, parse_u8, u8_parse_error};
use std::convert::TryFrom;
use std::ops::{Add, Sub};
use std::str::FromStr;
use vstd::prelude::*;
use vstd::std_specs::convert::{FromSpec, FromSpecImpl, TryFromSpecImpl};
use vstd::std_specs::ops::{AddSpecImpl, SubSpecImpl};
use vstd::string::StringSliceAdditionalSpecFns;

verus! {

/// A week day: a small number that checked construction keeps between 0 and
/// [`WeekDay::MAX`].
///
/// A `WeekDay` is not interchangeable with a value of any other unit.
/// Unchecked construction and the operators `+` and `-` do not keep the
/// range: who uses them answers for it.
#[derive(Debug, Clone, Copy, PartialEq, Eq, Hash, Structural)]
pub struct WeekDay(u8);

impl View for WeekDay {
    type V = u8;

    /// The number that this week day holds.
    closed spec fn view(&self) -> u8 {
        self.0
    }
}

impl WeekDay {
    /// The largest value that checked construction accepts.
    pub const MAX: u8 = 7;

    /// Whether this week day is within its range.
    pub open spec fn is_valid(&self) -> bool {
        self@ <= WeekDay::MAX
    }

    /// The week day that holds `raw`, whatever `raw` is.
    pub closed spec fn spec_from_unchecked(raw: u8) -> WeekDay {
        WeekDay(raw)
    }

    /// Makes a week day of `raw` without looking at it, also where `raw` is
    /// above [`WeekDay::MAX`].
    #[verifier::when_used_as_spec(spec_from_unchecked)]
    pub fn from_unchecked(raw: u8) -> (week_day: WeekDay)
        ensures
            week_day == WeekDay::from_unchecked(raw),
            week_day@ == raw,
    {
        WeekDay(raw)
    }

    /// The error of a number above [`WeekDay::MAX`]: an overflow that names
    /// the unit and its maximum.
    pub open spec fn overflow() -> DateTimeError {
        DateTimeError::Overflow { field: "WeekDay", max: 7 }
    }

    /// What checked construction makes of `raw`: the week day that holds `raw`
    /// exactly where `raw` is at most 7, and above it the overflow error.
    pub open spec fn checked(raw: nat) -> Result<WeekDay, DateTimeError> {
        if raw <= 7 {
            Ok(WeekDay::from_unchecked(raw as u8))
        } else {
            Err(WeekDay::overflow())
        }
    }

    /// What parsing makes of `text`: where `text` is not a numeral, or
    /// stands for more than a `u8` holds, a parse failure with the error of
    /// the standard library's parsing; else what checked construction makes
    /// of its number.
    pub open spec fn spec_parse(text: Seq<u8>) -> Result<WeekDay, DateTimeError> {
        match numeral_within(text, u8::MAX as nat) {
            Some(number) => WeekDay::checked(number),
            None => Err(DateTimeError::Parse(u8_parse_error(text))),
        }
    }

    /// Parses a week day from a decimal numeral.
    pub fn parse(text: &str) -> (parsed: Result<WeekDay, DateTimeError>)
        ensures
            parsed == WeekDay::spec_parse(text.spec_bytes()),
            parsed matches Ok(week_day) ==> week_day.is_valid(),
    {
        match parse_u8(text) {
            Ok(raw) => WeekDay::try_from(raw),
            Err(error) => Err(DateTimeError::from(error)),
        }
    }

    /// Unchecked construction keeps the raw value, and both conversions back
    /// to an integer return it unchanged, also above [`WeekDay::MAX`].
    pub proof fn law_unchecked_round_trip(raw: u8)
        ensures
            WeekDay::from_unchecked(raw)@ == raw,
            <u8 as FromSpec<WeekDay>>::from_spec(WeekDay::from_unchecked(raw)) == raw,
            <usize as FromSpec<WeekDay>>::from_spec(WeekDay::from_unchecked(raw)) == raw,
    {
    }

    /// A numeral above 7 is rejected: as an overflow that names the unit
    /// and its maximum where a `u8` holds its number, and as a parse
    /// failure where none does.
    pub proof fn law_numeral_out_of_range(text: Seq<u8>, number: nat)
        requires
            numeral_value(text) == Some(number),
            number > 7,
        ensures
            number <= u8::MAX ==> fails_with(WeekDay::spec_parse(text), WeekDay::overflow()),
            number > u8::MAX ==> WeekDay::spec_parse(text) matches Err(DateTimeError::Parse(_)),
    {
    }
}

impl Default for WeekDay {
    /// The week day that holds 0.
    fn default() -> (week_day: WeekDay)
        ensures
            week_day == WeekDay::from_unchecked(0),
            week_day@ == 0,
    {
        WeekDay(0)
    }
}

impl FromStr for WeekDay {
    type Err = DateTimeError;

    /// Parses a week day from a decimal numeral, as [`WeekDay::parse`] does.
    fn from_str(text: &str) -> (parsed: Result<WeekDay, DateTimeError>)
        ensures
            parsed == WeekDay::spec_parse(text.spec_bytes()),
            parsed matches Ok(week_day) ==> week_day.is_valid(),
    {
        WeekDay::parse(text)
    }
}

impl TryFrom<u8> for WeekDay {
    type Error = DateTimeError;

    /// Makes a week day of `raw` if `raw` is at most [`WeekDay::MAX`].
    fn try_from(raw: u8) -> (checked: Result<WeekDay, DateTimeError>)
        ensures
            checked == WeekDay::checked(raw as nat),
            checked is Ok <==> raw <= 7,
            checked matches Ok(week_day) ==> week_day@ == raw && week_day.is_valid(),
    {
        if raw > WeekDay::MAX {
            Err(DateTimeError::Overflow { field: "WeekDay", max: 7 })
        } else {
            Ok(WeekDay(raw))
        }
    }
}

impl TryFromSpecImpl<u8> for WeekDay {
    open spec fn obeys_try_from_spec() -> bool {
        true
    }

    open spec fn try_from_spec(raw: u8) -> Result<WeekDay, DateTimeError> {
        WeekDay::checked(raw as nat)
    }
}

impl TryFrom<usize> for WeekDay {
    type Error = DateTimeError;

    /// Makes a week day of `raw` if `raw` is at most [`WeekDay::MAX`].
    fn try_from(raw: usize) -> (checked: Result<WeekDay, DateTimeError>)
        ensures
            checked == WeekDay::checked(raw as nat),
            checked is Ok <==> raw <= 7,
            checked matches Ok(week_day) ==> week_day@ == raw && week_day.is_valid(),
    {
        if raw > WeekDay::MAX as usize {
            Err(DateTimeError::Overflow { field: "WeekDay", max: 7 })
        } else {
            Ok(WeekDay(raw as u8))
        }
    }
}

impl TryFromSpecImpl<usize> for WeekDay {
    open spec fn obeys_try_from_spec() -> bool {
        true
    }

    open spec fn try_from_spec(raw: usize) -> Result<WeekDay, DateTimeError> {
        WeekDay::checked(raw as nat)
    }
}

impl From<WeekDay> for u8 {
    /// The number that `week_day` holds.
    fn from(week_day: WeekDay) -> (raw: u8)
        ensures
            raw == week_day@,
    {
        week_day.0
    }
}

impl FromSpecImpl<WeekDay> for u8 {
    open spec fn obeys_from_spec() -> bool {
        true
    }

    open spec fn from_spec(week_day: WeekDay) -> u8 {
        week_day@
    }
}

impl From<WeekDay> for usize {
    /// The number that `week_day` holds.
    fn from(week_day: WeekDay) -> (raw: usize)
        ensures
            raw == week_day@,
    {
        week_day.0 as usize
    }
}

impl FromSpecImpl<WeekDay> for usize {
    open spec fn obeys_from_spec() -> bool {
        true
    }

    open spec fn from_spec(week_day: WeekDay) -> usize {
        week_day@ as usize
    }
}

impl Add<u8> for WeekDay {
    type Output = WeekDay;

    /// The week day that holds `other` more. The sum is not held against
    /// [`WeekDay::MAX`]; the caller sees to it that it fits in a `u8`.
    fn add(self, other: u8) -> (sum: WeekDay)
        ensures
            sum@ == self@ + other,
    {
        WeekDay(self.0 + other)
    }
}

impl AddSpecImpl<u8> for WeekDay {
    open spec fn obeys_add_spec() -> bool {
        true
    }

    /// The sum fits in a `u8`.
    open spec fn add_req(self, other: u8) -> bool {
        self@ + other <= u8::MAX
    }

    open spec fn add_spec(self, other: u8) -> WeekDay {
        WeekDay::from_unchecked((self@ + other) as u8)
    }
}

impl Sub<u8> for WeekDay {
    type Output = WeekDay;

    /// The week day that holds `other` less. The caller sees to it that
    /// `other` is not more than the week day holds.
    fn sub(self, other: u8) -> (difference: WeekDay)
        ensures
            difference@ == self@ - other,
    {
        WeekDay(self.0 - other)
    }
}

impl SubSpecImpl<u8> for WeekDay {
    open spec fn obeys_sub_spec() -> bool {
        true
    }

    /// The difference is not below zero.
    open spec fn sub_req(self, other: u8) -> bool {
        other <= self@
    }

    open spec fn sub_spec(self, other: u8) -> WeekDay {
        WeekDay::from_unchecked((self@ - other) as u8)
    }
}

} // verus!
