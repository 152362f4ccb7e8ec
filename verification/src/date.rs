//! The date that a report is asked for.

use vstd::prelude::*;
use chrono::{Datelike, NaiveDate};

verus! {

/// A calendar date: the year, the month from 1 and the day of the month
/// from 1.
#[derive(Clone, Copy, Debug, PartialEq, Eq, Structural)]
pub struct ReportDate {
    pub year: i32,
    pub month: u32,
    pub day: u32,
}

/// The format in which a date is given on the command line: year, month and
/// day, with hyphens between them.
pub const DATE_FORMAT: &'static str = "%Y-%m-%d";

/// The date that chrono reads from `text` in `format`, or `None` where it
/// reads none.
pub uninterp spec fn parsed_date(text: Seq<char>, format: Seq<char>) -> Option<ReportDate>;

/// Calls chrono's `NaiveDate::parse_from_str` and takes the year, the month
/// and the day out of the date that it gives; an error becomes `None`. The
/// contract claims only that the outcome depends on nothing but the text and
/// the format.
#[verifier::external_body]
fn parse_date(text: &str, format: &str) -> (date: Option<ReportDate>)
    ensures
        date == parsed_date(text@, format@),
{
    match NaiveDate::parse_from_str(text, format) {
        Ok(d) => Some(ReportDate { year: d.year(), month: d.month(), day: d.day() }),
        Err(_) => None,
    }
}

/// The date that was read, or today where none was.
pub open spec fn date_or_today(parsed: Option<ReportDate>, today: ReportDate) -> ReportDate {
    match parsed {
        Some(date) => date,
        None => today,
    }
}

/// The date to report for, given what was read from the command line.
pub fn pick_date(parsed: Option<ReportDate>, today: ReportDate) -> (date: ReportDate)
    ensures
        date == date_or_today(parsed, today),
{
    match parsed {
        Some(date) => date,
        None => today,
    }
}

/// The date that `date_string` names as year, month and day, or `today`
/// where it names none, as the word "now" does.
pub fn get_date(date_string: &str, today: ReportDate) -> (date: ReportDate)
    ensures
        date == date_or_today(parsed_date(date_string@, DATE_FORMAT@), today),
{
    pick_date(parse_date(date_string, DATE_FORMAT), today)
}

} // verus!
