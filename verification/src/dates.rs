//! Reading the two dates a report is made for.

use crate::calendar::CalendarDate;
use vstd::prelude::*;
use vstd::string::*;

verus! {

/// The description of the notation in which a date is written, as the
/// parser takes it: the year, the month and the day, with hyphens between
/// them.
pub const DATE_FORMAT: &'static str = "[year]-[month]-[day]";

/// `time::Error`, the error of the `time` crate. Nothing is claimed of
/// what it holds: it is carried from the parser to the place where its
/// words are taken.
#[verifier::external_type_specification]
#[verifier::external_body]
pub struct ExTimeError(time::Error);

/// The date that the `time` crate reads from `input` under the format
/// description `format`, as year, month and day; `None` where it reads none.
pub uninterp spec fn parsed_date(format: Seq<char>, input: Seq<char>) -> Option<(int, int, int)>;

/// Parses `input` with `time::Date::parse`, under the version 1 format
/// description that `time::format_description::parse_borrowed` makes of
/// `format`, and takes the year, month and day of the date that comes out.
///
/// Trusted: whether a date is read, and which, depends on the two texts
/// alone; and a date that `time` hands out is a day that exists. No text
/// is promised to be read: an error is that of the description where
/// `format` is none, else that of the parser.
#[verifier::external_body]
fn parse_with_format(input: &str, format: &str) -> (outcome: Result<CalendarDate, time::Error>)
    ensures
        match outcome {
            Ok(date) => date.wf() && parsed_date(format@, input@) == Some(date.ymd()),
            Err(_) => parsed_date(format@, input@) is None,
        },
{
    let items = time::format_description::parse_borrowed::<1>(format)?;
    let date = time::Date::parse(input, &items)?;
    Ok(CalendarDate { year: date.year(), month: u8::from(date.month()), day: date.day() })
}

/// What is said of a text that the parser reads as a date but that is not
/// written in the ten characters of the notation.
pub const OUT_OF_SHAPE: &'static str =
    "a date is four digits for the year, two for the month and two for the day";

/// Whether `c` is one of the ten digits.
pub open spec fn is_digit(c: char) -> bool {
    '0' <= c <= '9'
}

/// Whether a text has the shape of a date: ten characters, of which the
/// fifth and the eighth are hyphens and the others digits.
pub open spec fn is_date_shaped(text: Seq<char>) -> bool {
    &&& text.len() == 10
    &&& is_digit(text[0])
    &&& is_digit(text[1])
    &&& is_digit(text[2])
    &&& is_digit(text[3])
    &&& text[4] == '-'
    &&& is_digit(text[5])
    &&& is_digit(text[6])
    &&& text[7] == '-'
    &&& is_digit(text[8])
    &&& is_digit(text[9])
}

/// The date that a text stands for: the one that the parser reads from it
/// where the text has the shape of a date, and none where it has not.
pub open spec fn date_of(text: Seq<char>) -> Option<(int, int, int)> {
    if is_date_shaped(text) {
        parsed_date(DATE_FORMAT@, text)
    } else {
        None
    }
}

fn digit_at(text: &str, place: usize) -> (found: bool)
    requires
        place < text@.len(),
    ensures
        found == is_digit(text@[place as int]),
{
    let c = text.get_char(place);
    '0' <= c && c <= '9'
}

fn hyphen_at(text: &str, place: usize) -> (found: bool)
    requires
        place < text@.len(),
    ensures
        found == (text@[place as int] == '-'),
{
    text.get_char(place) == '-'
}

/// Whether `text` has the shape of a date.
pub fn date_shaped(text: &str) -> (shaped: bool)
    ensures
        shaped == is_date_shaped(text@),
{
    text.unicode_len() == 10 && digit_at(text, 0) && digit_at(text, 1) && digit_at(text, 2)
        && digit_at(text, 3) && hyphen_at(text, 4) && digit_at(text, 5) && digit_at(text, 6)
        && hyphen_at(text, 7) && digit_at(text, 8) && digit_at(text, 9)
}

/// Which of the two dates of a report a text was given for.
#[derive(Clone, Copy, Debug, PartialEq, Eq, Structural)]
pub enum DateField {
    /// The first day of the study year.
    StudyYearStart,
    /// The day after the last introduction activity.
    DateAfterNova,
}

/// A text that is no date: which of the two it was given for, the text
/// itself, and what the parser said of it.
#[derive(Debug)]
pub struct DateError {
    pub field: DateField,
    pub input: String,
    pub reason: String,
}

/// How a date is called in messages.
pub open spec fn field_label(field: DateField) -> Seq<char> {
    match field {
        DateField::StudyYearStart => "study year start"@,
        DateField::DateAfterNova => "date after NOVA"@,
    }
}

/// The whole message for a text that is no date.
pub open spec fn rejection_text(field: DateField, input: Seq<char>, reason: Seq<char>) -> Seq<char> {
    field_label(field) + " '"@ + input + "' is not a date written as yyyy-mm-dd: "@ + reason
}

impl DateField {
    /// How the date is called in messages.
    pub fn label(self) -> (text: &'static str)
        ensures
            text@ == field_label(self),
    {
        match self {
            DateField::StudyYearStart => "study year start",
            DateField::DateAfterNova => "date after NOVA",
        }
    }
}

impl DateError {
    /// The message for the user: the date concerned, the text as given, the
    /// notation that was expected and the parser's reason.
    pub fn message(&self) -> (text: String)
        ensures
            text@ == rejection_text(self.field, self.input@, self.reason@),
    {
        let mut text = String::from_str(self.field.label());
        text.append(" '");
        text.append(self.input.as_str());
        text.append("' is not a date written as yyyy-mm-dd: ");
        text.append(self.reason.as_str());
        text
    }
}

/// Turns what the parser returned for `input` into the library's own
/// outcome. A date is kept where the text has the shape of a date. It is
/// refused where the text has not, and so is a failure of the parser: the
/// error then holds the field, the text and the reason, which is the
/// parser's own words where the parser failed.
pub fn date_outcome(
    parsed: Result<CalendarDate, time::Error>,
    shaped: bool,
    input: &str,
    field: DateField,
) -> (outcome: Result<CalendarDate, DateError>)
    ensures
        match parsed {
            Ok(date) => if shaped {
                outcome == Ok::<CalendarDate, DateError>(date)
            } else {
                &&& outcome matches Err(error)
                &&& error.field == field
                &&& error.input@ == input@
                &&& error.reason@ == OUT_OF_SHAPE@
            },
            Err(cause) => {
                &&& outcome matches Err(error)
                &&& error.field == field
                &&& error.input@ == input@
                &&& to_string_from_display_ensures::<time::Error>(&cause, error.reason)
            },
        },
{
    match parsed {
        Ok(date) => if shaped {
            Ok(date)
        } else {
            Err(
                DateError {
                    field,
                    input: String::from_str(input),
                    reason: String::from_str(OUT_OF_SHAPE),
                },
            )
        },
        Err(cause) => Err(
            DateError { field, input: String::from_str(input), reason: cause.to_string() },
        ),
    }
}

/// Reads one date written as year, month and day.
///
/// Succeeds exactly on the texts that have the shape of a date and from
/// which the parser reads a date, and then returns that date, which is a
/// day that exists. Otherwise the error names `field` and holds `input`.
pub fn parse_date(input: &str, field: DateField) -> (outcome: Result<CalendarDate, DateError>)
    ensures
        match outcome {
            Ok(date) => date.wf() && date_of(input@) == Some(date.ymd()),
            Err(error) => date_of(input@) is None && error.field == field && error.input@
                == input@,
        },
{
    date_outcome(parse_with_format(input, DATE_FORMAT), date_shaped(input), input, field)
}

/// Joins the outcomes for the two dates of a report: both dates where both
/// were read, else the failure of the first that was not.
pub fn pair_dates(
    start: Result<CalendarDate, DateError>,
    cutoff: Result<CalendarDate, DateError>,
) -> (outcome: Result<(CalendarDate, CalendarDate), DateError>)
    ensures
        match (start, cutoff) {
            (Ok(first), Ok(second)) => outcome == Ok::<(CalendarDate, CalendarDate), DateError>(
                (first, second),
            ),
            (Err(error), _) => outcome == Err::<(CalendarDate, CalendarDate), DateError>(error),
            (Ok(_), Err(error)) => outcome == Err::<(CalendarDate, CalendarDate), DateError>(error),
        },
{
    match start {
        Err(error) => Err(error),
        Ok(first) => match cutoff {
            Err(error) => Err(error),
            Ok(second) => Ok((first, second)),
        },
    }
}

/// Reads the two dates of a report: the start of the study year and the day
/// after the last introduction activity.
///
/// Succeeds exactly when both texts are dates. A failure is that of the
/// start of the study year where that text is no date, else that of the
/// other one.
pub fn parse_dates(study_year_start: &str, date_after_nova: &str) -> (outcome: Result<
    (CalendarDate, CalendarDate),
    DateError,
>)
    ensures
        match outcome {
            Ok((start, cutoff)) => {
                &&& start.wf()
                &&& cutoff.wf()
                &&& date_of(study_year_start@) == Some(start.ymd())
                &&& date_of(date_after_nova@) == Some(cutoff.ymd())
            },
            Err(error) => if date_of(study_year_start@) is None {
                error.field == DateField::StudyYearStart && error.input@ == study_year_start@
            } else {
                &&& date_of(date_after_nova@) is None
                &&& error.field == DateField::DateAfterNova
                &&& error.input@ == date_after_nova@
            },
        },
{
    pair_dates(
        parse_date(study_year_start, DateField::StudyYearStart),
        parse_date(date_after_nova, DateField::DateAfterNova),
    )
}

/// A text that has not the shape of a date is no date, whatever the
/// parser makes of it: a month or a day of one digit is refused, and so is
/// a sign before the year.
pub proof fn lemma_out_of_shape_is_no_date(text: Seq<char>)
    requires
        !is_date_shaped(text),
    ensures
        date_of(text) is None,
{
}

} // verus!
