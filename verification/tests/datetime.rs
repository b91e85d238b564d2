use icu_datetime::date::{
    DateTimeError, DateTimeType, Day, Hour, Minute, MockDateTime, Month, Second,
};
use std::convert::TryFrom;

fn overflow_of(result: Result<MockDateTime, DateTimeError>) -> (String, usize) {
    match result {
        Err(DateTimeError::Overflow { field, max }) => (field.to_string(), max),
        other => panic!("expected an overflow, got {:?}", other),
    }
}

fn is_parse(result: Result<MockDateTime, DateTimeError>) -> bool {
    matches!(result, Err(DateTimeError::Parse(_)))
}

fn is_malformed(result: Result<MockDateTime, DateTimeError>) -> bool {
    matches!(result, Err(DateTimeError::Malformed))
}

fn fields(datetime: &MockDateTime) -> (usize, u8, u8, u8, u8, u8) {
    (
        datetime.year(),
        u8::from(datetime.month()),
        u8::from(datetime.day()),
        u8::from(datetime.hour()),
        u8::from(datetime.minute()),
        u8::from(datetime.second()),
    )
}

#[test]
fn new_puts_the_fields_together() {
    let datetime: MockDateTime = MockDateTime::new(
        2020,
        Month::try_from(9u8).unwrap(),
        Day::try_from(24u8).unwrap(),
        Hour::try_from(13u8).unwrap(),
        Minute::try_from(21u8).unwrap(),
        Second::try_from(0u8).unwrap(),
    );
    assert_eq!(fields(&datetime), (2020, 9, 24, 13, 21, 0));
    assert_eq!(datetime.year, 2020usize);
    assert_eq!(datetime.month, Month::from_unchecked(9));
    assert_eq!(datetime.day, Day::from_unchecked(24));
    assert_eq!(datetime.hour, Hour::from_unchecked(13));
    assert_eq!(datetime.minute, Minute::from_unchecked(21));
    assert_eq!(datetime.second, Second::from_unchecked(0));
}

#[test]
fn new_does_not_look_at_the_fields() {
    let datetime: MockDateTime = MockDateTime::new(
        usize::MAX,
        Month::from_unchecked(200),
        Day::from_unchecked(201),
        Hour::from_unchecked(202),
        Minute::from_unchecked(203),
        Second::from_unchecked(204),
    );
    assert_eq!(fields(&datetime), (usize::MAX, 200, 201, 202, 203, 204));
}

#[test]
fn try_new_keeps_the_values_passed_in() {
    let datetime: MockDateTime = MockDateTime::try_new(2020, 9, 24, 13, 21, 0).unwrap();
    assert_eq!(fields(&datetime), (2020, 9, 24, 13, 21, 0));
    assert_eq!(usize::from(datetime.month()), 9usize);
    assert_eq!(usize::from(datetime.day()), 24usize);
}

#[test]
fn try_new_accepts_the_extremes() {
    let least: MockDateTime = MockDateTime::try_new(0, 0, 0, 0, 0, 0).unwrap();
    assert_eq!(fields(&least), (0, 0, 0, 0, 0, 0));
    let most: MockDateTime = MockDateTime::try_new(usize::MAX, 12, 32, 24, 60, 60).unwrap();
    assert_eq!(fields(&most), (usize::MAX, 12, 32, 24, 60, 60));
}

#[test]
fn try_new_rejects_each_field_one_above_its_max() {
    assert_eq!(
        overflow_of(MockDateTime::try_new(2020, 13, 1, 1, 1, 1)),
        ("Month".to_string(), 12)
    );
    assert_eq!(overflow_of(MockDateTime::try_new(2020, 1, 33, 1, 1, 1)), ("Day".to_string(), 32));
    assert_eq!(
        overflow_of(MockDateTime::try_new(2020, 1, 1, 25, 1, 1)),
        ("Hour".to_string(), 24)
    );
    assert_eq!(
        overflow_of(MockDateTime::try_new(2020, 1, 1, 1, 61, 1)),
        ("Minute".to_string(), 60)
    );
    assert_eq!(
        overflow_of(MockDateTime::try_new(2020, 1, 1, 1, 1, 61)),
        ("Second".to_string(), 60)
    );
}

#[test]
fn try_new_reports_the_first_invalid_field() {
    assert_eq!(
        overflow_of(MockDateTime::try_new(2020, 99, 99, 99, 99, 99)),
        ("Month".to_string(), 12)
    );
    assert_eq!(
        overflow_of(MockDateTime::try_new(2020, 12, 99, 99, 99, 99)),
        ("Day".to_string(), 32)
    );
    assert_eq!(
        overflow_of(MockDateTime::try_new(2020, 12, 32, 99, 99, 99)),
        ("Hour".to_string(), 24)
    );
    assert_eq!(
        overflow_of(MockDateTime::try_new(2020, 12, 32, 24, 99, 99)),
        ("Minute".to_string(), 60)
    );
    assert_eq!(
        overflow_of(MockDateTime::try_new(2020, 12, 32, 24, 60, 99)),
        ("Second".to_string(), 60)
    );
    assert_eq!(
        overflow_of(MockDateTime::try_new(2020, 1, 99, 1, 1, 99)),
        ("Day".to_string(), 32)
    );
}

#[test]
fn try_new_does_not_wrap_large_values() {
    assert_eq!(
        overflow_of(MockDateTime::try_new(2020, 256, 1, 1, 1, 1)),
        ("Month".to_string(), 12)
    );
    assert_eq!(
        overflow_of(MockDateTime::try_new(2020, 1, 1, 1, 1, usize::MAX)),
        ("Second".to_string(), 60)
    );
}

#[test]
fn parse_reads_the_documented_example() {
    let datetime: MockDateTime = MockDateTime::parse("2020-09-24T13:21:00").unwrap();
    assert_eq!(datetime.year(), 2020usize);
    assert_eq!(u8::from(datetime.month()), 8u8);
    assert_eq!(u8::from(datetime.day()), 23u8);
    assert_eq!(u8::from(datetime.hour()), 13u8);
    assert_eq!(u8::from(datetime.minute()), 21u8);
    assert_eq!(u8::from(datetime.second()), 0u8);
}

#[test]
fn datetime_from_str_is_parse() {
    let datetime: MockDateTime = "2020-10-14T13:21:00".parse().unwrap();
    assert_eq!(fields(&datetime), (2020, 9, 13, 13, 21, 0));
    assert_eq!(datetime, MockDateTime::parse("2020-10-14T13:21:00").unwrap());
    let failed: Result<MockDateTime, DateTimeError> = "2020-10-14".parse();
    assert!(is_malformed(failed));
}

#[test]
fn parse_counts_month_and_day_from_one() {
    let first: MockDateTime = MockDateTime::parse("0000-01-01T00:00:00").unwrap();
    assert_eq!(fields(&first), (0, 0, 0, 0, 0, 0));
    let last: MockDateTime = MockDateTime::parse("9999-12-32T24:60:60").unwrap();
    assert_eq!(fields(&last), (9999, 11, 31, 24, 60, 60));
}

#[test]
fn parse_rejects_a_month_or_day_of_zero() {
    assert!(is_malformed(MockDateTime::parse("2020-00-24T13:21:00")));
    assert!(is_malformed(MockDateTime::parse("2020-09-00T13:21:00")));
    assert!(is_malformed(MockDateTime::parse("2020-00-00T13:21:00")));
    assert!(is_malformed(MockDateTime::parse("2020-+0-24T13:21:00")));
}

#[test]
fn parse_checks_the_other_fields_before_a_zero_month() {
    assert_eq!(
        overflow_of(MockDateTime::parse("2020-00-24T13:21:99")),
        ("Second".to_string(), 60)
    );
    assert!(is_parse(MockDateTime::parse("2020-00-24T13:2x:00")));
}

#[test]
fn parse_rejects_a_non_digit_in_any_field() {
    assert!(is_parse(MockDateTime::parse("2020-XX-24T13:21:00")));
    assert!(is_parse(MockDateTime::parse("20X0-09-24T13:21:00")));
    assert!(is_parse(MockDateTime::parse("2020-09-2XT13:21:00")));
    assert!(is_parse(MockDateTime::parse("2020-09-24TX3:21:00")));
    assert!(is_parse(MockDateTime::parse("2020-09-24T13:2 :00")));
    assert!(is_parse(MockDateTime::parse("2020-09-24T13:21:0-")));
    assert!(is_parse(MockDateTime::parse("-020-09-24T13:21:00")));
    assert!(is_parse(MockDateTime::parse("2020-09-24T13:21:+X")));
    assert!(is_parse(MockDateTime::parse("2020-9+-24T13:21:00")));
}

#[test]
fn parse_takes_a_plus_sign_in_front_of_a_field() {
    let datetime: MockDateTime = MockDateTime::parse("+020-+9-+4T+3:+1:+0").unwrap();
    assert_eq!(fields(&datetime), (20, 8, 3, 3, 1, 0));
}

#[test]
fn parse_reports_overflow_of_a_field() {
    assert_eq!(
        overflow_of(MockDateTime::parse("2020-13-24T13:21:00")),
        ("Month".to_string(), 12)
    );
    assert_eq!(overflow_of(MockDateTime::parse("2020-09-33T13:21:00")), ("Day".to_string(), 32));
    assert_eq!(
        overflow_of(MockDateTime::parse("2020-09-24T25:21:00")),
        ("Hour".to_string(), 24)
    );
    assert_eq!(
        overflow_of(MockDateTime::parse("2020-09-24T13:61:00")),
        ("Minute".to_string(), 60)
    );
    assert_eq!(
        overflow_of(MockDateTime::parse("2020-09-24T13:21:61")),
        ("Second".to_string(), 60)
    );
}

#[test]
fn parse_reports_the_first_rejected_field() {
    assert_eq!(
        overflow_of(MockDateTime::parse("2020-99-XXT13:21:00")),
        ("Month".to_string(), 12)
    );
    assert!(is_parse(MockDateTime::parse("2020-XX-99T13:21:00")));
    assert!(is_parse(MockDateTime::parse("XXXX-99-99T99:99:99")));
    assert_eq!(
        overflow_of(MockDateTime::parse("2020-09-24T99:99:XX")),
        ("Hour".to_string(), 24)
    );
}

#[test]
fn parse_does_not_look_between_the_fields() {
    let datetime: MockDateTime = MockDateTime::parse("2020/09/24 13.21.00").unwrap();
    assert_eq!(fields(&datetime), (2020, 8, 23, 13, 21, 0));
    let datetime: MockDateTime = MockDateTime::parse("2020009024013021000").unwrap();
    assert_eq!(fields(&datetime), (2020, 8, 23, 13, 21, 0));
}

#[test]
fn parse_does_not_look_after_the_second() {
    let datetime: MockDateTime = MockDateTime::parse("2020-09-24T13:21:00Z").unwrap();
    assert_eq!(fields(&datetime), (2020, 8, 23, 13, 21, 0));
    let datetime: MockDateTime = MockDateTime::parse("2020-09-24T13:21:00\u{e9}t\u{e9}").unwrap();
    assert_eq!(fields(&datetime), (2020, 8, 23, 13, 21, 0));
}

#[test]
fn parse_rejects_a_text_that_is_too_short() {
    assert!(is_malformed(MockDateTime::parse("")));
    assert!(is_malformed(MockDateTime::parse("2020")));
    assert!(is_malformed(MockDateTime::parse("2020-09-24")));
    assert!(is_malformed(MockDateTime::parse("2020-09-24T13:21:0")));
    assert!(is_malformed(MockDateTime::parse("XXXX-XX-XXTXX:XX:X")));
}

#[test]
fn parse_rejects_a_field_that_ends_inside_a_character() {
    assert!(is_malformed(MockDateTime::parse("2020\u{e9}09-24T13:21:00")));
    assert!(is_malformed(MockDateTime::parse("202\u{e9}-09-24T13:21:00")));
    assert!(is_malformed(MockDateTime::parse("2020-09-24T13:21:0\u{e9}")));
    assert!(is_malformed(MockDateTime::parse("2020-09-24T13:21\u{20ac}0")));
}

#[test]
fn parse_reads_a_character_that_fills_a_field_as_no_numeral() {
    assert!(is_parse(MockDateTime::parse("2020-\u{e9}-24T13:21:00")));
    assert!(is_parse(MockDateTime::parse("\u{1f600}-09-24T13:21:00")));
    assert!(is_parse(MockDateTime::parse("2020-09-24T13:21:\u{e9}")));
}

#[test]
fn default_is_all_zero() {
    let datetime: MockDateTime = MockDateTime::default();
    assert_eq!(fields(&datetime), (0, 0, 0, 0, 0, 0));
    assert_eq!(datetime, MockDateTime::try_new(0, 0, 0, 0, 0, 0).unwrap());
}

#[test]
fn a_datetime_is_a_plain_value() {
    let datetime: MockDateTime = MockDateTime::try_new(2020, 9, 24, 13, 21, 0).unwrap();
    let copy: MockDateTime = datetime;
    assert_eq!(datetime, copy);
    assert_ne!(datetime, MockDateTime::try_new(2020, 9, 24, 13, 21, 1).unwrap());
}

fn year_through_the_trait<T: DateTimeType>(value: &T) -> usize {
    value.year()
}

#[test]
fn the_accessor_trait_reads_every_field() {
    let datetime: MockDateTime = MockDateTime::try_new(1999, 12, 31, 23, 59, 60).unwrap();
    assert_eq!(year_through_the_trait(&datetime), 1999usize);
    assert_eq!(DateTimeType::month(&datetime), Month::from_unchecked(12));
    assert_eq!(DateTimeType::day(&datetime), Day::from_unchecked(31));
    assert_eq!(DateTimeType::hour(&datetime), Hour::from_unchecked(23));
    assert_eq!(DateTimeType::minute(&datetime), Minute::from_unchecked(59));
    assert_eq!(DateTimeType::second(&datetime), Second::from_unchecked(60));
}

struct Noon;

impl DateTimeType for Noon {
    fn year(&self) -> usize {
        1970
    }

    fn month(&self) -> Month {
        Month::from_unchecked(0)
    }

    fn day(&self) -> Day {
        Day::from_unchecked(0)
    }

    fn hour(&self) -> Hour {
        Hour::from_unchecked(12)
    }

    fn minute(&self) -> Minute {
        Minute::from_unchecked(0)
    }

    fn second(&self) -> Second {
        Second::from_unchecked(0)
    }
}

#[test]
fn another_type_can_implement_the_accessor_trait() {
    assert_eq!(year_through_the_trait(&Noon), 1970usize);
    assert_eq!(Noon.hour(), Hour::from_unchecked(12));
    assert_eq!(u8::from(Noon.month()), 0u8);
    assert_eq!(u8::from(Noon.day()), 0u8);
    assert_eq!(u8::from(Noon.minute()), 0u8);
    assert_eq!(u8::from(Noon.second()), 0u8);
}
