//! The minute of an hour.
use crate::date::error::{fails_with, DateTimeError};
use crate::date::numeral::{numeral_value, numeral_within, parse_u8, u8_parse_error};
use std::convert::TryFrom;
use std::ops::{Add, Sub};
use std::str::FromStr;
use vstd::prelude::*;
use vstd::std_specs::convert::{FromSpec, FromSpecImpl, TryFromSpecImpl};
use vstd::std_specs::ops::{AddSpecImpl, SubSpecImpl};
use vstd::string::StringSliceAdditionalSpecFns;

verus! {

/// A minute: a small number that checked construction keeps between 0 and
/// [`Minute::MAX`].
///
/// A `Minute` is not interchangeable with a value of any other unit.
/// Unchecked construction and the operators `+` and `-` do not keep the
/// range: who uses them answers for it.
#[derive(Debug, Clone, Copy, PartialEq, Eq, Hash, Structural)]
pub struct Minute(u8);

impl View for Minute {
    type V = u8;

    /// The number that this minute holds.
    closed spec fn view(&self) -> u8 {
        self.0
    }
}

impl Minute {
    /// The largest value that checked construction accepts.
    pub const MAX: u8 = 60;

    /// Whether this minute is within its range.
    pub open spec fn is_valid(&self) -> bool {
        self@ <= Minute::MAX
    }

    /// The minute that holds `raw`, whatever `raw` is.
    pub closed spec fn spec_from_unchecked(raw: u8) -> Minute {
        Minute(raw)
    }

    /// Makes a minute of `raw` without looking at it, also where `raw` is
    /// above [`Minute::MAX`].
    #[verifier::when_used_as_spec(spec_from_unchecked)]
    pub fn from_unchecked(raw: u8) -> (minute: Minute)
        ensures
            minute == Minute::from_unchecked(raw),
            minute@ == raw,
    {
        Minute(raw)
    }

    /// The error of a number above [`Minute::MAX`]: an overflow that names
    /// the unit and its maximum.
    pub open spec fn overflow() -> DateTimeError {
        DateTimeError::Overflow { field: "Minute", max: 60 }
    }

    /// What checked construction makes of `raw`: the minute that holds `raw`
    /// exactly where `raw` is at most 60, and above it the overflow error.
    pub open spec fn checked(raw: nat) -> Result<Minute, DateTimeError> {
        if raw <= 60 {
            Ok(Minute::from_unchecked(raw as u8))
        } else {
            Err(Minute::overflow())
        }
    }

    /// What parsing makes of `text`: where `text` is not a numeral, or
    /// stands for more than a `u8` holds, a parse failure with the error of
    /// the standard library's parsing; else what checked construction makes
    /// of its number.
    pub open spec fn spec_parse(text: Seq<u8>) -> Result<Minute, DateTimeError> {
        match numeral_within(text, u8::MAX as nat) {
            Some(number) => Minute::checked(number),
            None => Err(DateTimeError::Parse(u8_parse_error(text))),
        }
    }

    /// Parses a minute from a decimal numeral.
    pub fn parse(text: &str) -> (parsed: Result<Minute, DateTimeError>)
        ensures
            parsed == Minute::spec_parse(text.spec_bytes()),
            parsed matches Ok(minute) ==> minute.is_valid(),
    {
        match parse_u8(text) {
            Ok(raw) => Minute::try_from(raw),
            Err(error) => Err(DateTimeError::from(error)),
        }
    }

    /// Unchecked construction keeps the raw value, and both conversions back
    /// to an integer return it unchanged, also above [`Minute::MAX`].
    pub proof fn law_unchecked_round_trip(raw: u8)
        ensures
            Minute::from_unchecked(raw)@ == raw,
            <u8 as FromSpec<Minute>>::from_spec(Minute::from_unchecked(raw)) == raw,
            <usize as FromSpec<Minute>>::from_spec(Minute::from_unchecked(raw)) == raw,
    {
    }

    /// A numeral above 60 is rejected: as an overflow that names the unit
    /// and its maximum where a `u8` holds its number, and as a parse
    /// failure where none does.
    pub proof fn law_numeral_out_of_range(text: Seq<u8>, number: nat)
        requires
            numeral_value(text) == Some(number),
            number > 60,
        ensures
            number <= u8::MAX ==> fails_with(Minute::spec_parse(text), Minute::overflow()),
            number > u8::MAX ==> Minute::spec_parse(text) matches Err(DateTimeError::Parse(_)),
    {
    }
}

impl Default for Minute {
    /// The minute that holds 0.
    fn default() -> (minute: Minute)
        ensures
            minute == Minute::from_unchecked(0),
            minute@ == 0,
    {
        Minute(0)
    }
}

impl FromStr for Minute {
    type Err = DateTimeError;

    /// Parses a minute from a decimal numeral, as [`Minute::parse`] does.
    fn from_str(text: &str) -> (parsed: Result<Minute, DateTimeError>)
        ensures
            parsed == Minute::spec_parse(text.spec_bytes()),
            parsed matches Ok(minute) ==> minute.is_valid(),
    {
        Minute::parse(text)
    }
}

impl TryFrom<u8> for Minute {
    type Error = DateTimeError;

    /// Makes a minute of `raw` if `raw` is at most [`Minute::MAX`].
    fn try_from(raw: u8) -> (checked: Result<Minute, DateTimeError>)
        ensures
            checked == Minute::checked(raw as nat),
            checked is Ok <==> raw <= 60,
            checked matches Ok(minute) ==> minute@ == raw && minute.is_valid(),
    {
        if raw > Minute::MAX {
            Err(DateTimeError::Overflow { field: "Minute", max: 60 })
        } else {
            Ok(Minute(raw))
        }
    }
}

impl TryFromSpecImpl<u8> for Minute {
    open spec fn obeys_try_from_spec() -> bool {
        true
    }

    open spec fn try_from_spec(raw: u8) -> Result<Minute, DateTimeError> {
        Minute::checked(raw as nat)
    }
}

impl TryFrom<usize> for Minute {
    type Error = DateTimeError;

    /// Makes a minute of `raw` if `raw` is at most [`Minute::MAX`].
    fn try_from(raw: usize) -> (checked: Result<Minute, DateTimeError>)
        ensures
            checked == Minute::checked(raw as nat),
            checked is Ok <==> raw <= 60,
            checked matches Ok(minute) ==> minute@ == raw && minute.is_valid(),
    {
        if raw > Minute::MAX as usize {
            Err(DateTimeError::Overflow { field: "Minute", max: 60 })
        } else {
            Ok(Minute(raw as u8))
        }
    }
}

impl TryFromSpecImpl<usize> for Minute {
    open spec fn obeys_try_from_spec() -> bool {
        true
    }

    open spec fn try_from_spec(raw: usize) -> Result<Minute, DateTimeError> {
        Minute::checked(raw as nat)
    }
}

impl From<Minute> for u8 {
    /// The number that `minute` holds.
    fn from(minute: Minute) -> (raw: u8)
        ensures
            raw == minute@,
    {
        minute.0
    }
}

impl FromSpecImpl<Minute> for u8 {
    open spec fn obeys_from_spec() -> bool {
        true
    }

    open spec fn from_spec(minute: Minute) -> u8 {
        minute@
    }
}

impl From<Minute> for usize {
    /// The number that `minute` holds.
    fn from(minute: Minute) -> (raw: usize)
        ensures
            raw == minute@,
    {
        minute.0 as usize
    }
}

impl FromSpecImpl<Minute> for usize {
    open spec fn obeys_from_spec() -> bool {
        true
    }

    open spec fn from_spec(minute: Minute) -> usize {
        minute@ as usize
    }
}

impl Add<u8> for Minute {
    type Output = Minute;

    /// The minute that holds `other` more. The sum is not held against
    /// [`Minute::MAX`]; the caller sees to it that it fits in a `u8`.
    fn add(self, other: u8) -> (sum: Minute)
        ensures
            sum@ == self@ + other,
    {
        Minute(self.0 + other)
    }
}

impl AddSpecImpl<u8> for Minute {
    open spec fn obeys_add_spec() -> bool {
        true
    }

    /// The sum fits in a `u8`.
    open spec fn add_req(self, other: u8) -> bool {
        self@ + other <= u8::MAX
    }

    open spec fn add_spec(self, other: u8) -> Minute {
        Minute::from_unchecked((self@ + other) as u8)
    }
}

impl Sub<u8> for Minute {
    type Output = Minute;

    /// The minute that holds `other` less. The caller sees to it that
    /// `other` is not more than the minute holds.
    fn sub(self, other: u8) -> (difference: Minute)
        ensures
            difference@ == self@ - other,
    {
        Minute(self.0 - other)
    }
}

impl SubSpecImpl<u8> for Minute {
    open spec fn obeys_sub_spec() -> bool {
        true
    }

    /// The difference is not below zero.
    open spec fn sub_req(self, other: u8) -> bool {
        other <= self@
    }

    open spec fn sub_spec(self, other: u8) -> Minute {
        Minute::from_unchecked((self@ - other) as u8)
    }
}

} // verus!
