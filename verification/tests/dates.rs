use alv_metrics::calendar::{days_in_month, leap_year, CalendarDate};
use alv_metrics::dates::{
    date_outcome, date_shaped, pair_dates, parse_date, parse_dates, DateError, DateField,
    DATE_FORMAT, OUT_OF_SHAPE,
};

fn date(year: i32, month: u8, day: u8) -> CalendarDate {
    CalendarDate::new(year, month, day).unwrap()
}

#[test]
fn parses_a_date_written_as_year_month_day() {
    let parsed = parse_date("2023-09-01", DateField::StudyYearStart).unwrap();
    assert_eq!(parsed.year, 2023);
    assert_eq!(parsed.month, 9);
    assert_eq!(parsed.day, 1);
    assert!(parsed.is_valid());
}

#[test]
fn rejects_a_month_that_does_not_exist() {
    let error = parse_date("2023-13-01", DateField::StudyYearStart).unwrap_err();
    assert_eq!(error.field, DateField::StudyYearStart);
    assert_eq!(error.input, "2023-13-01");
    assert_eq!(error.reason, "the 'month' component could not be parsed");
    assert!(parse_date("2023-00-01", DateField::StudyYearStart).is_err());
}

#[test]
fn rejects_text_that_is_no_date() {
    let error = parse_date("not-a-date", DateField::DateAfterNova).unwrap_err();
    assert_eq!(error.field, DateField::DateAfterNova);
    assert_eq!(error.input, "not-a-date");
}

#[test]
fn rejects_month_and_day_of_one_digit() {
    assert!(parse_date("2023-9-1", DateField::StudyYearStart).is_err());
    assert!(parse_date("2023-09-1", DateField::StudyYearStart).is_err());
    assert!(parse_date("2023-9-01", DateField::StudyYearStart).is_err());
}

#[test]
fn rejects_a_day_beyond_the_end_of_the_month() {
    assert!(parse_date("2023-02-29", DateField::StudyYearStart).is_err());
    assert!(parse_date("2023-04-31", DateField::StudyYearStart).is_err());
    assert!(parse_date("2023-01-00", DateField::StudyYearStart).is_err());
    assert_eq!(parse_date("2024-02-29", DateField::StudyYearStart).unwrap(), date(2024, 2, 29));
    assert_eq!(parse_date("2023-12-31", DateField::StudyYearStart).unwrap(), date(2023, 12, 31));
}

#[test]
fn rejects_what_is_more_or_less_than_a_date() {
    assert!(parse_date("", DateField::StudyYearStart).is_err());
    assert!(parse_date("2023-09-01 ", DateField::StudyYearStart).is_err());
    assert!(parse_date(" 2023-09-01", DateField::StudyYearStart).is_err());
    assert!(parse_date("2023-09-01T00:00", DateField::StudyYearStart).is_err());
    assert!(parse_date("2023/09/01", DateField::StudyYearStart).is_err());
    assert!(parse_date("23-09-01", DateField::StudyYearStart).is_err());
}

#[test]
fn reads_both_dates_of_a_report() {
    let (start, cutoff) = parse_dates("2022-09-01", "2022-10-01").unwrap();
    assert_eq!(start, date(2022, 9, 1));
    assert_eq!(cutoff, date(2022, 10, 1));
}

#[test]
fn reports_the_first_text_that_is_no_date() {
    let error = parse_dates("2022-9-1", "2022-10-01").unwrap_err();
    assert_eq!(error.field, DateField::StudyYearStart);
    assert_eq!(error.input, "2022-9-1");

    let error = parse_dates("2022-09-01", "later").unwrap_err();
    assert_eq!(error.field, DateField::DateAfterNova);
    assert_eq!(error.input, "later");

    let error = parse_dates("sooner", "later").unwrap_err();
    assert_eq!(error.field, DateField::StudyYearStart);
    assert_eq!(error.input, "sooner");
}

#[test]
fn pairs_two_outcomes() {
    let failure = |field: DateField, input: &str| DateError {
        field,
        input: input.to_string(),
        reason: "no".to_string(),
    };
    let both = pair_dates(Ok(date(2022, 9, 1)), Ok(date(2022, 10, 1))).unwrap();
    assert_eq!(both, (date(2022, 9, 1), date(2022, 10, 1)));

    let error =
        pair_dates(Err(failure(DateField::StudyYearStart, "a")), Ok(date(2022, 10, 1))).unwrap_err();
    assert_eq!(error.input, "a");

    let error =
        pair_dates(Ok(date(2022, 9, 1)), Err(failure(DateField::DateAfterNova, "b"))).unwrap_err();
    assert_eq!(error.input, "b");
    assert_eq!(error.field, DateField::DateAfterNova);

    let error = pair_dates(
        Err(failure(DateField::StudyYearStart, "a")),
        Err(failure(DateField::DateAfterNova, "b")),
    )
    .unwrap_err();
    assert_eq!(error.input, "a");
    assert_eq!(error.field, DateField::StudyYearStart);
}

#[test]
fn keeps_the_words_of_the_parser() {
    let items = time::format_description::parse_borrowed::<1>(DATE_FORMAT).unwrap();
    let cause: time::Error = time::Date::parse("2023-13-01", &items).unwrap_err().into();
    let words = cause.to_string();
    assert_eq!(words, "the 'month' component could not be parsed");
    let error =
        date_outcome(Err(cause), true, "2023-13-01", DateField::DateAfterNova).unwrap_err();
    assert_eq!(error.field, DateField::DateAfterNova);
    assert_eq!(error.input, "2023-13-01");
    assert_eq!(error.reason, words);

    let cause: time::Error = time::Date::parse("x", &items).unwrap_err().into();
    let words = cause.to_string();
    let error = date_outcome(Err(cause), false, "x", DateField::StudyYearStart).unwrap_err();
    assert_eq!(error.field, DateField::StudyYearStart);
    assert_eq!(error.input, "x");
    assert_eq!(error.reason, words);

    let kept = date_outcome(Ok(date(2023, 9, 1)), true, "2023-09-01", DateField::StudyYearStart);
    assert_eq!(kept.unwrap(), date(2023, 9, 1));
}

#[test]
fn refuses_a_date_that_is_out_of_shape() {
    let error = date_outcome(Ok(date(2023, 9, 1)), false, "+2023-09-01", DateField::DateAfterNova)
        .unwrap_err();
    assert_eq!(error.field, DateField::DateAfterNova);
    assert_eq!(error.input, "+2023-09-01");
    assert_eq!(error.reason, OUT_OF_SHAPE);

    let error = parse_date("+2023-09-01", DateField::StudyYearStart).unwrap_err();
    assert_eq!(error.reason, OUT_OF_SHAPE);
    assert_eq!(error.input, "+2023-09-01");
    let error = parse_date("-2023-09-01", DateField::StudyYearStart).unwrap_err();
    assert_eq!(error.reason, OUT_OF_SHAPE);
    assert_eq!(
        error.message(),
        "study year start '-2023-09-01' is not a date written as yyyy-mm-dd: \
         a date is four digits for the year, two for the month and two for the day"
    );
}

#[test]
fn tells_the_shape_of_a_date() {
    assert!(date_shaped("2023-09-01"));
    assert!(date_shaped("0000-00-00"));
    assert!(date_shaped("9999-99-99"));
    assert!(!date_shaped(""));
    assert!(!date_shaped("2023-9-1"));
    assert!(!date_shaped("2023-09-1"));
    assert!(!date_shaped("2023-09-011"));
    assert!(!date_shaped("+2023-09-01"));
    assert!(!date_shaped("+023-09-01"));
    assert!(!date_shaped("2023/09/01"));
    assert!(!date_shaped("2023-09_01"));
    assert!(!date_shaped("2023-0a-01"));
    assert!(!date_shaped("not-a-date"));
    assert!(!date_shaped("２０２３-09-01"));
    assert!(!date_shaped("2023-09-0١"));
}

#[test]
fn reads_the_first_and_the_last_year() {
    assert_eq!(parse_date("0000-01-01", DateField::StudyYearStart).unwrap(), date(0, 1, 1));
    assert_eq!(parse_date("9999-12-31", DateField::StudyYearStart).unwrap(), date(9999, 12, 31));
    assert_eq!(parse_date("2010-08-01", DateField::StudyYearStart).unwrap(), date(2010, 8, 1));
}

#[test]
fn agrees_with_the_parser_on_the_date() {
    let items = time::format_description::parse_borrowed::<1>(DATE_FORMAT).unwrap();
    let theirs = time::Date::parse("2021-11-30", &items).unwrap();
    let ours = parse_date("2021-11-30", DateField::StudyYearStart).unwrap();
    assert_eq!(ours.year, theirs.year());
    assert_eq!(ours.month, u8::from(theirs.month()));
    assert_eq!(ours.day, theirs.day());
}

#[test]
fn words_the_message_for_the_user() {
    let error = DateError {
        field: DateField::StudyYearStart,
        input: "2023-9-1".to_string(),
        reason: "bad month".to_string(),
    };
    assert_eq!(
        error.message(),
        "study year start '2023-9-1' is not a date written as yyyy-mm-dd: bad month"
    );
    let error = DateError {
        field: DateField::DateAfterNova,
        input: String::new(),
        reason: String::new(),
    };
    assert_eq!(error.message(), "date after NOVA '' is not a date written as yyyy-mm-dd: ");
    assert_eq!(DateField::StudyYearStart.label(), "study year start");
    assert_eq!(DateField::DateAfterNova.label(), "date after NOVA");
}

#[test]
fn knows_the_lengths_of_the_months() {
    assert_eq!(days_in_month(2023, 1), 31);
    assert_eq!(days_in_month(2023, 2), 28);
    assert_eq!(days_in_month(2024, 2), 29);
    assert_eq!(days_in_month(1900, 2), 28);
    assert_eq!(days_in_month(2000, 2), 29);
    assert_eq!(days_in_month(2023, 4), 30);
    assert_eq!(days_in_month(2023, 6), 30);
    assert_eq!(days_in_month(2023, 9), 30);
    assert_eq!(days_in_month(2023, 11), 30);
    assert_eq!(days_in_month(2023, 12), 31);
    assert!(leap_year(2024));
    assert!(leap_year(2000));
    assert!(leap_year(-4));
    assert!(!leap_year(2023));
    assert!(!leap_year(2100));
}

#[test]
fn makes_only_days_that_exist() {
    assert!(CalendarDate::new(2023, 9, 1).is_some());
    assert!(CalendarDate::new(2023, 0, 1).is_none());
    assert!(CalendarDate::new(2023, 13, 1).is_none());
    assert!(CalendarDate::new(2023, 9, 0).is_none());
    assert!(CalendarDate::new(2023, 9, 31).is_none());
    assert!(CalendarDate::new(2023, 2, 29).is_none());
    assert!(CalendarDate::new(2024, 2, 29).is_some());
    assert!(!CalendarDate { year: 2023, month: 2, day: 30 }.is_valid());
    assert!(CalendarDate { year: 2023, month: 2, day: 28 }.is_valid());
}
