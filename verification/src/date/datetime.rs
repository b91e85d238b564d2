//! The composite date and time, and the trait through which a formatter
//! reads one.
use crate::date::day::Day;
use crate::date::error::{fails_with, DateTimeError};
use crate::date::hour::Hour;
use crate::date::layout::{
    cut, day_field, fits_layout, has_layout, hour_field, in_field, minute_field, month_field,
    second_field, starts_field, year_field,
};
use crate::date::minute::Minute;
use crate::date::month::Month;
use crate::date::numeral::{
    is_digit, lemma_non_digit_is_no_numeral, numeral_within, parse_usize, usize_parse_error,
};
use crate::date::second::Second;
use std::convert::TryFrom;
use std::str::FromStr;
use vstd::prelude::*;
use vstd::std_specs::convert::FromSpec;
use vstd::string::StringSliceAdditionalSpecFns;

verus! {

/// What a formatter needs of a date and time: read access to its six
/// fields. Any type that stands for a point in local time may implement
/// it, in verified code or in ordinary Rust, so the trait asks for the six
/// accessors and nothing else; what an accessor returns is stated where a
/// type implements it.
pub trait DateTimeType {
    /// The year.
    fn year(&self) -> usize;

    /// The month.
    fn month(&self) -> Month;

    /// The day of the month.
    fn day(&self) -> Day;

    /// The hour.
    fn hour(&self) -> Hour;

    /// The minute.
    fn minute(&self) -> Minute;

    /// The second.
    fn second(&self) -> Second;
}

/// A date and time as six independent fields: a year without bounds, and a
/// month, day, hour, minute and second that each keep to the range of their
/// unit. The fields are not held against each other: no month length, no
/// leap year.
#[derive(Debug, Clone, Copy, PartialEq, Eq, Structural)]
pub struct MockDateTime {
    /// The year, any number.
    pub year: usize,
    /// The month.
    pub month: Month,
    /// The day of the month.
    pub day: Day,
    /// The hour.
    pub hour: Hour,
    /// The minute.
    pub minute: Minute,
    /// The second.
    pub second: Second,
}

impl MockDateTime {
    /// Whether every bounded field is within the range of its unit.
    pub open spec fn is_valid(&self) -> bool {
        &&& self.month.is_valid()
        &&& self.day.is_valid()
        &&& self.hour.is_valid()
        &&& self.minute.is_valid()
        &&& self.second.is_valid()
    }

    /// Puts six fields together. The fields are taken as they are: the
    /// result is valid exactly where each of them is.
    pub fn new(
        year: usize,
        month: Month,
        day: Day,
        hour: Hour,
        minute: Minute,
        second: Second,
    ) -> (datetime: MockDateTime)
        ensures
            datetime == (MockDateTime { year, month, day, hour, minute, second }),
    {
        MockDateTime { year, month, day, hour, minute, second }
    }

    /// What checked construction makes of six raw numbers. The year is
    /// taken as it is. The other five are checked in the order month, day,
    /// hour, minute, second, and the first one above the maximum of its
    /// unit decides the error.
    pub open spec fn spec_try_new(
        year: usize,
        month: usize,
        day: usize,
        hour: usize,
        minute: usize,
        second: usize,
    ) -> Result<MockDateTime, DateTimeError> {
        match Month::checked(month as nat) {
            Err(error) => Err(error),
            Ok(month) => match Day::checked(day as nat) {
                Err(error) => Err(error),
                Ok(day) => match Hour::checked(hour as nat) {
                    Err(error) => Err(error),
                    Ok(hour) => match Minute::checked(minute as nat) {
                        Err(error) => Err(error),
                        Ok(minute) => match Second::checked(second as nat) {
                            Err(error) => Err(error),
                            Ok(second) => Ok(
                                MockDateTime { year, month, day, hour, minute, second },
                            ),
                        },
                    },
                },
            },
        }
    }

    /// Makes a date and time of six raw numbers, each checked against the
    /// range of its unit. The numbers are stored as they are given.
    pub fn try_new(
        year: usize,
        month: usize,
        day: usize,
        hour: usize,
        minute: usize,
        second: usize,
    ) -> (made: Result<MockDateTime, DateTimeError>)
        ensures
            made == MockDateTime::spec_try_new(year, month, day, hour, minute, second),
            made is Ok <==> month <= 12 && day <= 32 && hour <= 24 && minute <= 60 && second <= 60,
            made matches Ok(datetime) ==> datetime.is_valid() && datetime.year == year
                && datetime.month@ == month && datetime.day@ == day && datetime.hour@ == hour
                && datetime.minute@ == minute && datetime.second@ == second,
    {
        let month = match Month::try_from(month) {
            Ok(month) => month,
            Err(error) => return Err(error),
        };
        let day = match Day::try_from(day) {
            Ok(day) => day,
            Err(error) => return Err(error),
        };
        let hour = match Hour::try_from(hour) {
            Ok(hour) => hour,
            Err(error) => return Err(error),
        };
        let minute = match Minute::try_from(minute) {
            Ok(minute) => minute,
            Err(error) => return Err(error),
        };
        let second = match Second::try_from(second) {
            Ok(second) => second,
            Err(error) => return Err(error),
        };
        Ok(MockDateTime { year, month, day, hour, minute, second })
    }

    /// What parsing makes of the bytes of a year: their number, or where
    /// they are not a numeral a parse failure with the error of the standard
    /// library's parsing.
    pub open spec fn spec_parse_year(field: Seq<u8>) -> Result<usize, DateTimeError> {
        match numeral_within(field, usize::MAX as nat) {
            Some(number) => Ok(number as usize),
            None => Err(DateTimeError::Parse(usize_parse_error(field))),
        }
    }

    /// What parsing makes of `text`.
    ///
    /// A text from which the six fields cannot be cut is malformed. The
    /// fields are then parsed in the order year, month, day, hour, minute,
    /// second, each as its unit parses it, and the first one that is
    /// rejected decides the error. The text counts month and day from one
    /// and the value counts them from zero: a month or a day of zero is
    /// malformed, and any other is stored one less than written.
    pub open spec fn spec_parse(text: Seq<u8>) -> Result<MockDateTime, DateTimeError> {
        if !has_layout(text) {
            Err(DateTimeError::Malformed)
        } else {
            match MockDateTime::spec_parse_year(year_field(text)) {
                Err(error) => Err(error),
                Ok(year) => match Month::spec_parse(month_field(text)) {
                    Err(error) => Err(error),
                    Ok(month) => match Day::spec_parse(day_field(text)) {
                        Err(error) => Err(error),
                        Ok(day) => match Hour::spec_parse(hour_field(text)) {
                            Err(error) => Err(error),
                            Ok(hour) => match Minute::spec_parse(minute_field(text)) {
                                Err(error) => Err(error),
                                Ok(minute) => match Second::spec_parse(second_field(text)) {
                                    Err(error) => Err(error),
                                    Ok(second) => if month@ == 0 || day@ == 0 {
                                        Err(DateTimeError::Malformed)
                                    } else {
                                        Ok(
                                            MockDateTime {
                                                year,
                                                month: Month::from_unchecked((month@ - 1) as u8),
                                                day: Day::from_unchecked((day@ - 1) as u8),
                                                hour,
                                                minute,
                                                second,
                                            },
                                        )
                                    },
                                },
                            },
                        },
                    },
                },
            }
        }
    }

    /// Parses a date and time from a text of the form
    /// `YYYY-MM-DDThh:mm:ss`.
    pub fn parse(text: &str) -> (parsed: Result<MockDateTime, DateTimeError>)
        ensures
            parsed == MockDateTime::spec_parse(text.spec_bytes()),
            parsed matches Ok(datetime) ==> datetime.is_valid() && datetime.month@ <= 11
                && datetime.day@ <= 31,
    {
        if !fits_layout(text) {
            return Err(DateTimeError::Malformed);
        }
        let year = match parse_usize(cut(text, 0, 4)) {
            Ok(year) => year,
            Err(error) => return Err(DateTimeError::from(error)),
        };
        let month = match Month::parse(cut(text, 5, 7)) {
            Ok(month) => month,
            Err(error) => return Err(error),
        };
        let day = match Day::parse(cut(text, 8, 10)) {
            Ok(day) => day,
            Err(error) => return Err(error),
        };
        let hour = match Hour::parse(cut(text, 11, 13)) {
            Ok(hour) => hour,
            Err(error) => return Err(error),
        };
        let minute = match Minute::parse(cut(text, 14, 16)) {
            Ok(minute) => minute,
            Err(error) => return Err(error),
        };
        let second = match Second::parse(cut(text, 17, 19)) {
            Ok(second) => second,
            Err(error) => return Err(error),
        };
        if u8::from(month) == 0 || u8::from(day) == 0 {
            return Err(DateTimeError::Malformed);
        }
        proof {
            Month::law_unchecked_round_trip((month@ - 1) as u8);
            Day::law_unchecked_round_trip((day@ - 1) as u8);
        }
        Ok(MockDateTime { year, month: month - 1, day: day - 1, hour, minute, second })
    }
}

impl MockDateTime {
    /// Checked construction from six numbers within their ranges succeeds
    /// and stores each number as it was given: a field read back, as a unit
    /// or converted to an integer, is the number passed in.
    pub proof fn law_try_new_keeps_fields(
        year: usize,
        month: usize,
        day: usize,
        hour: usize,
        minute: usize,
        second: usize,
    )
        requires
            month <= 12,
            day <= 32,
            hour <= 24,
            minute <= 60,
            second <= 60,
        ensures
            ({
                &&& MockDateTime::spec_try_new(year, month, day, hour, minute, second) matches Ok(
                    datetime,
                )
                &&& datetime.year == year
                &&& datetime.month@ == month
                &&& datetime.day@ == day
                &&& datetime.hour@ == hour
                &&& datetime.minute@ == minute
                &&& datetime.second@ == second
                &&& <usize as FromSpec<Month>>::from_spec(datetime.month) == month
                &&& <usize as FromSpec<Day>>::from_spec(datetime.day) == day
                &&& <usize as FromSpec<Hour>>::from_spec(datetime.hour) == hour
                &&& <usize as FromSpec<Minute>>::from_spec(datetime.minute) == minute
                &&& <usize as FromSpec<Second>>::from_spec(datetime.second) == second
            }),
    {
        Month::law_unchecked_round_trip(month as u8);
        Day::law_unchecked_round_trip(day as u8);
        Hour::law_unchecked_round_trip(hour as u8);
        Minute::law_unchecked_round_trip(minute as u8);
        Second::law_unchecked_round_trip(second as u8);
    }

    /// Checked construction reports the first field above its maximum, in
    /// the order month, day, hour, minute, second, whatever the fields after
    /// it hold; it succeeds exactly where there is none.
    pub proof fn law_try_new_reports_first_invalid(
        year: usize,
        month: usize,
        day: usize,
        hour: usize,
        minute: usize,
        second: usize,
    )
        ensures
            ({
                let made = MockDateTime::spec_try_new(year, month, day, hour, minute, second);
                &&& month > 12 ==> fails_with(made, Month::overflow())
                &&& month <= 12 && day > 32 ==> fails_with(made, Day::overflow())
                &&& month <= 12 && day <= 32 && hour > 24 ==> fails_with(made, Hour::overflow())
                &&& month <= 12 && day <= 32 && hour <= 24 && minute > 60 ==> fails_with(
                    made,
                    Minute::overflow(),
                )
                &&& month <= 12 && day <= 32 && hour <= 24 && minute <= 60 && second > 60
                    ==> fails_with(made, Second::overflow())
                &&& month <= 12 && day <= 32 && hour <= 24 && minute <= 60 && second <= 60
                    <==> made is Ok
            }),
    {
    }

    /// A text with the layout that holds a byte other than a digit in one
    /// of its fields is a parse failure, unless that byte is a plus sign in
    /// front of its field, which a numeral may have, or a field before it
    /// is above the maximum of its unit, which is then reported first.
    pub proof fn law_non_digit_is_parse_failure(text: Seq<u8>, at: int)
        requires
            has_layout(text),
            in_field(at),
            !is_digit(text[at]),
            !(text[at] == 0x2b && starts_field(at)),
            at >= 8 ==> !fails_with(Month::spec_parse(month_field(text)), Month::overflow()),
            at >= 11 ==> !fails_with(Day::spec_parse(day_field(text)), Day::overflow()),
            at >= 14 ==> !fails_with(Hour::spec_parse(hour_field(text)), Hour::overflow()),
            at >= 17 ==> !fails_with(Minute::spec_parse(minute_field(text)), Minute::overflow()),
        ensures
            MockDateTime::spec_parse(text) matches Err(DateTimeError::Parse(_)),
    {
        if at < 4 {
            lemma_non_digit_is_no_numeral(year_field(text), at);
        } else if at < 7 {
            lemma_non_digit_is_no_numeral(month_field(text), at - 5);
        } else if at < 10 {
            lemma_non_digit_is_no_numeral(day_field(text), at - 8);
        } else if at < 13 {
            lemma_non_digit_is_no_numeral(hour_field(text), at - 11);
        } else if at < 16 {
            lemma_non_digit_is_no_numeral(minute_field(text), at - 14);
        } else {
            lemma_non_digit_is_no_numeral(second_field(text), at - 17);
        }
    }
}

impl Default for MockDateTime {
    /// The date and time whose six fields are all zero.
    fn default() -> (datetime: MockDateTime)
        ensures
            datetime == (MockDateTime {
                year: 0,
                month: Month::from_unchecked(0),
                day: Day::from_unchecked(0),
                hour: Hour::from_unchecked(0),
                minute: Minute::from_unchecked(0),
                second: Second::from_unchecked(0),
            }),
            datetime.is_valid(),
    {
        MockDateTime {
            year: 0,
            month: Month::default(),
            day: Day::default(),
            hour: Hour::default(),
            minute: Minute::default(),
            second: Second::default(),
        }
    }
}

impl FromStr for MockDateTime {
    type Err = DateTimeError;

    /// Parses a date and time from a text of the form
    /// `YYYY-MM-DDThh:mm:ss`, as [`MockDateTime::parse`] does.
    fn from_str(text: &str) -> (parsed: Result<MockDateTime, DateTimeError>)
        ensures
            parsed == MockDateTime::spec_parse(text.spec_bytes()),
            parsed matches Ok(datetime) ==> datetime.is_valid() && datetime.month@ <= 11
                && datetime.day@ <= 31,
    {
        MockDateTime::parse(text)
    }
}

impl DateTimeType for MockDateTime {
    fn year(&self) -> (year: usize)
        ensures
            year == self.year,
    {
        self.year
    }

    fn month(&self) -> (month: Month)
        ensures
            month == self.month,
    {
        self.month
    }

    fn day(&self) -> (day: Day)
        ensures
            day == self.day,
    {
        self.day
    }

    fn hour(&self) -> (hour: Hour)
        ensures
            hour == self.hour,
    {
        self.hour
    }

    fn minute(&self) -> (minute: Minute)
        ensures
            minute == self.minute,
    {
        self.minute
    }

    fn second(&self) -> (second: Second)
        ensures
            second == self.second,
    {
        self.second
    }
}

} // verus!
