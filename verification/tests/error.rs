use icu_datetime::date::layout::fits_layout;
use icu_datetime::date::{DateTimeError, Minute, MockDateTime, Month};
use std::convert::TryFrom;
use std::num::ParseIntError;

#[test]
fn overflow_message_names_field_and_max() {
    let error: DateTimeError = Minute::parse("99").unwrap_err();
    assert_eq!(error.to_string(), "Minute must be between 0-60");
    let error: DateTimeError = Month::try_from(13u8).unwrap_err();
    assert_eq!(error.to_string(), "Month must be between 0-12");
    let error: DateTimeError = MockDateTime::try_new(2020, 1, 40, 1, 1, 1).unwrap_err();
    assert_eq!(error.to_string(), "Day must be between 0-32");
}

#[test]
fn overflow_message_writes_any_max_in_decimal() {
    let error: DateTimeError = DateTimeError::Overflow { field: "Field", max: 0 };
    assert_eq!(error.to_string(), "Field must be between 0-0");
    let error: DateTimeError = DateTimeError::Overflow { field: "Field", max: 7 };
    assert_eq!(error.to_string(), "Field must be between 0-7");
    let error: DateTimeError = DateTimeError::Overflow { field: "Field", max: 10 };
    assert_eq!(error.to_string(), "Field must be between 0-10");
    let error: DateTimeError = DateTimeError::Overflow { field: "", max: 1234567890 };
    assert_eq!(error.to_string(), " must be between 0-1234567890");
    let error: DateTimeError = DateTimeError::Overflow { field: "Field", max: usize::MAX };
    assert_eq!(error.to_string(), format!("Field must be between 0-{}", usize::MAX));
}

#[test]
fn parse_message_is_that_of_the_integer_parser() {
    let inner: ParseIntError = "XX".parse::<u8>().unwrap_err();
    let error: DateTimeError = Month::parse("XX").unwrap_err();
    assert_eq!(error.to_string(), inner.to_string());
    assert_eq!(error.to_string(), "invalid digit found in string");

    let inner: ParseIntError = "".parse::<u8>().unwrap_err();
    let error: DateTimeError = Month::parse("").unwrap_err();
    assert_eq!(error.to_string(), inner.to_string());
    assert_eq!(error.to_string(), "cannot parse integer from empty string");

    let inner: ParseIntError = "256".parse::<u8>().unwrap_err();
    let error: DateTimeError = Month::parse("256").unwrap_err();
    assert_eq!(error.to_string(), inner.to_string());
    assert_eq!(error.to_string(), "number too large to fit in target type");
}

#[test]
fn parse_message_of_a_datetime_field() {
    let error: DateTimeError = MockDateTime::parse("2020-XX-24T13:21:00").unwrap_err();
    assert_eq!(error.to_string(), "invalid digit found in string");
    let error: DateTimeError = MockDateTime::parse("    -09-24T13:21:00").unwrap_err();
    assert_eq!(error.to_string(), "invalid digit found in string");
}

#[test]
fn malformed_message_describes_the_layout() {
    let error: DateTimeError = MockDateTime::parse("2020-09-24").unwrap_err();
    assert_eq!(
        error.to_string(),
        "text must have the form YYYY-MM-DDThh:mm:ss with month and day counted from 01"
    );
}

#[test]
fn a_parse_error_converts_into_the_parse_variant() {
    let inner: ParseIntError = "x".parse::<usize>().unwrap_err();
    let error: DateTimeError = DateTimeError::from(inner.clone());
    match error {
        DateTimeError::Parse(held) => assert_eq!(held, inner),
        other => panic!("expected a parse failure, got {:?}", other),
    }
}

#[test]
fn parse_keeps_the_error_of_the_integer_parser() {
    let inner: ParseIntError = "".parse::<u8>().unwrap_err();
    match Month::parse("") {
        Err(DateTimeError::Parse(held)) => assert_eq!(held, inner),
        other => panic!("expected a parse failure, got {:?}", other),
    }
    let inner: ParseIntError = "2o2o".parse::<usize>().unwrap_err();
    match MockDateTime::parse("2o2o-09-24T13:21:00") {
        Err(DateTimeError::Parse(held)) => assert_eq!(held, inner),
        other => panic!("expected a parse failure, got {:?}", other),
    }
}

#[test]
fn errors_can_be_printed_for_debugging() {
    let error: DateTimeError = DateTimeError::Overflow { field: "Hour", max: 24 };
    assert_eq!(format!("{:?}", error), "Overflow { field: \"Hour\", max: 24 }");
    assert_eq!(format!("{:?}", DateTimeError::Malformed), "Malformed");
}

#[test]
fn layout_needs_nineteen_bytes_and_whole_characters() {
    assert!(fits_layout("2020-09-24T13:21:00"));
    assert!(fits_layout("XXXXXXXXXXXXXXXXXXX"));
    assert!(fits_layout("2020-09-24T13:21:00 and more"));
    assert!(fits_layout("2020-\u{e9}-24T13:21:00"));
    assert!(!fits_layout(""));
    assert!(!fits_layout("2020-09-24T13:21:0"));
    assert!(!fits_layout("2020\u{e9}09-24T13:21:00"));
    assert!(!fits_layout("2020-09-24T13:21:0\u{e9}"));
}
