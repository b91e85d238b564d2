//! The month of a date.
use crate::date::error::{fails_with, DateTimeError};
use crate::date::numeral::{numeral_value, numeral_within, parse_u8, u8_parse_error};
use std::convert::TryFrom;
use std::ops::{Add, Sub};
use std::str::FromStr;
use vstd::prelude::*;
use vstd::std_specs::convert::{FromSpec, FromSpecImpl, TryFromSpecImpl};
use vstd::std_specs::ops::{AddSpecImpl, SubSpecImpl};
use vstd::string::StringSliceAdditionalSpecFns;

verus! {

/// A month: a small number that checked construction keeps between 0 and
/// [`Month::MAX`].
///
/// A `Month` is not interchangeable with a value of any other unit.
/// Unchecked construction and the operators `+` and `-` do not keep the
/// range: who uses them answers for it.
#[derive(Debug, Clone, Copy, PartialEq, Eq, Hash, Structural)]
pub struct Month(u8);

impl View for Month {
    type V = u8;

    /// The number that this month holds.
    closed spec fn view(&self) -> u8 {
        self.0
    }
}

impl Month {
    /// The largest value that checked construction accepts.
    pub const MAX: u8 = 12;

    /// Whether this month is within its range.
    pub open spec fn is_valid(&self) -> bool {
        self@ <= Month::MAX
    }

    /// The month that holds `raw`, whatever `raw` is.
    pub closed spec fn spec_from_unchecked(raw: u8) -> Month {
        Month(raw)
    }

    /// Makes a month of `raw` without looking at it, also where `raw` is
    /// above [`Month::MAX`].
    #[verifier::when_used_as_spec(spec_from_unchecked)]
    pub fn from_unchecked(raw: u8) -> (month: Month)
        ensures
            month == Month::from_unchecked(raw),
            month@ == raw,
    {
        Month(raw)
    }

    /// The error of a number above [`Month::MAX`]: an overflow that names
    /// the unit and its maximum.
    pub open spec fn overflow() -> DateTimeError {
        DateTimeError::Overflow { field: "Month", max: 12 }
    }

    /// What checked construction makes of `raw`: the month that holds `raw`
    /// exactly where `raw` is at most 12, and above it the overflow error.
    pub open spec fn checked(raw: nat) -> Result<Month, DateTimeError> {
        if raw <= 12 {
            Ok(Month::from_unchecked(raw as u8))
        } else {
            Err(Month::overflow())
        }
    }

    /// What parsing makes of `text`: where `text` is not a numeral, or
    /// stands for more than a `u8` holds, a parse failure with the error of
    /// the standard library's parsing; else what checked construction makes
    /// of its number.
    pub open spec fn spec_parse(text: Seq<u8>) -> Result<Month, DateTimeError> {
        match numeral_within(text, u8::MAX as nat) {
            Some(number) => Month::checked(number),
            None => Err(DateTimeError::Parse(u8_parse_error(text))),
        }
    }

    /// Parses a month from a decimal numeral.
    pub fn parse(text: &str) -> (parsed: Result<Month, DateTimeError>)
        ensures
            parsed == Month::spec_parse(text.spec_bytes()),
            parsed matches Ok(month) ==> month.is_valid(),
    {
        match parse_u8(text) {
            Ok(raw) => Month::try_from(raw),
            Err(error) => Err(DateTimeError::from(error)),
        }
    }

    /// Unchecked construction keeps the raw value, and both conversions back
    /// to an integer return it unchanged, also above [`Month::MAX`].
    pub proof fn law_unchecked_round_trip(raw: u8)
        ensures
            Month::from_unchecked(raw)@ == raw,
            <u8 as FromSpec<Month>>::from_spec(Month::from_unchecked(raw)) == raw,
            <usize as FromSpec<Month>>::from_spec(Month::from_unchecked(raw)) == raw,
    {
    }

    /// A numeral above 12 is rejected: as an overflow that names the unit
    /// and its maximum where a `u8` holds its number, and as a parse
    /// failure where none does.
    pub proof fn law_numeral_out_of_range(text: Seq<u8>, number: nat)
        requires
            numeral_value(text) == Some(number),
            number > 12,
        ensures
            number <= u8::MAX ==> fails_with(Month::spec_parse(text), Month::overflow()),
            number > u8::MAX ==> Month::spec_parse(text) matches Err(DateTimeError::Parse(_)),
    {
    }
}

impl Default for Month {
    /// The month that holds 0.
    fn default() -> (month: Month)
        ensures
            month == Month::from_unchecked(0),
            month@ == 0,
    {
        Month(0)
    }
}

impl FromStr for Month {
    type Err = DateTimeError;

    /// Parses a month from a decimal numeral, as [`Month::parse`] does.
    fn from_str(text: &str) -> (parsed: Result<Month, DateTimeError>)
        ensures
            parsed == Month::spec_parse(text.spec_bytes()),
            parsed matches Ok(month) ==> month.is_valid(),
    {
        Month::parse(text)
    }
}

impl TryFrom<u8> for Month {
    type Error = DateTimeError;

    /// Makes a month of `raw` if `raw` is at most [`Month::MAX`].
    fn try_from(raw: u8) -> (checked: Result<Month, DateTimeError>)
        ensures
            checked == Month::checked(raw as nat),
            checked is Ok <==> raw <= 12,
            checked matches Ok(month) ==> month@ == raw && month.is_valid(),
    {
        if raw > Month::MAX {
            Err(DateTimeError::Overflow { field: "Month", max: 12 })
        } else {
            Ok(Month(raw))
        }
    }
}

impl TryFromSpecImpl<u8> for Month {
    open spec fn obeys_try_from_spec() -> bool {
        true
    }

    open spec fn try_from_spec(raw: u8) -> Result<Month, DateTimeError> {
        Month::checked(raw as nat)
    }
}

impl TryFrom<usize> for Month {
    type Error = DateTimeError;

    /// Makes a month of `raw` if `raw` is at most [`Month::MAX`].
    fn try_from(raw: usize) -> (checked: Result<Month, DateTimeError>)
        ensures
            checked == Month::checked(raw as nat),
            checked is Ok <==> raw <= 12,
            checked matches Ok(month) ==> month@ == raw && month.is_valid(),
    {
        if raw > Month::MAX as usize {
            Err(DateTimeError::Overflow { field: "Month", max: 12 })
        } else {
            Ok(Month(raw as u8))
        }
    }
}

impl TryFromSpecImpl<usize> for Month {
    open spec fn obeys_try_from_spec() -> bool {
        true
    }

    open spec fn try_from_spec(raw: usize) -> Result<Month, DateTimeError> {
        Month::checked(raw as nat)
    }
}

impl From<Month> for u8 {
    /// The number that `month` holds.
    fn from(month: Month) -> (raw: u8)
        ensures
            raw == month@,
    {
        month.0
    }
}

impl FromSpecImpl<Month> for u8 {
    open spec fn obeys_from_spec() -> bool {
        true
    }

    open spec fn from_spec(month: Month) -> u8 {
        month@
    }
}

impl From<Month> for usize {
    /// The number that `month` holds.
    fn from(month: Month) -> (raw: usize)
        ensures
            raw == month@,
    {
        month.0 as usize
    }
}

impl FromSpecImpl<Month> for usize {
    open spec fn obeys_from_spec() -> bool {
        true
    }

    open spec fn from_spec(month: Month) -> usize {
        month@ as usize
    }
}

impl Add<u8> for Month {
    type Output = Month;

    /// The month that holds `other` more. The sum is not held against
    /// [`Month::MAX`]; the caller sees to it that it fits in a `u8`.
    fn add(self, other: u8) -> (sum: Month)
        ensures
            sum@ == self@ + other,
    {
        Month(self.0 + other)
    }
}

impl AddSpecImpl<u8> for Month {
    open spec fn obeys_add_spec() -> bool {
        true
    }

    /// The sum fits in a `u8`.
    open spec fn add_req(self, other: u8) -> bool {
        self@ + other <= u8::MAX
    }

    open spec fn add_spec(self, other: u8) -> Month {
        Month::from_unchecked((self@ + other) as u8)
    }
}

impl Sub<u8> for Month {
    type Output = Month;

    /// The month that holds `other` less. The caller sees to it that
    /// `other` is not more than the month holds.
    fn sub(self, other: u8) -> (difference: Month)
        ensures
            difference@ == self@ - other,
    {
        Month(self.0 - other)
    }
}

impl SubSpecImpl<u8> for Month {
    open spec fn obeys_sub_spec() -> bool {
        true
    }

    /// The difference is not below zero.
    open spec fn sub_req(self, other: u8) -> bool {
        other <= self@
    }

    open spec fn sub_spec(self, other: u8) -> Month {
        Month::from_unchecked((self@ - other) as u8)
    }
}

} // verus!
