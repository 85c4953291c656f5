//! Calendar dates as they come from the metadata service, and the text shown for them.
//!
//! Reading a date from text and writing it out with a month name are left to chrono.
//! A date travels between the two as three plain numbers.

use crate::numbers::{digit, digits, signed_decimal, signed_digits};
use crate::text::{opt_text, present_or, text_or};
use chrono::{Datelike, NaiveDate};
use vstd::prelude::*;
use vstd::string::*;

verus! {

/// The first year that chrono's `NaiveDate` holds.
pub const MIN_YEAR: i32 = -262143;

/// The last year that chrono's `NaiveDate` holds.
pub const MAX_YEAR: i32 = 262142;

/// Whether `year` has a 29th of February in the proleptic Gregorian calendar.
pub open spec fn is_leap(year: int) -> bool {
    year % 4 == 0 && (year % 100 != 0 || year % 400 == 0)
}

/// The number of days of a month.
pub open spec fn month_length(year: int, month: int) -> int {
    if month == 2 {
        if is_leap(year) {
            29
        } else {
            28
        }
    } else if month == 4 || month == 6 || month == 9 || month == 11 {
        30
    } else {
        31
    }
}

/// Whether the three numbers are a day of the proleptic Gregorian calendar in a year
/// that chrono can hold.
pub open spec fn is_calendar_day(year: int, month: int, day: int) -> bool {
    &&& MIN_YEAR <= year <= MAX_YEAR
    &&& 1 <= month <= 12
    &&& 1 <= day <= month_length(year, month)
}

/// A day of the calendar.
#[derive(Clone, Copy, Debug, PartialEq, Eq)]
pub struct Date {
    pub year: i32,
    pub month: u32,
    pub day: u32,
}

/// What chrono's `NaiveDate::parse_from_str` reads from `text` under `pattern`: the
/// year, month and day of the date, or nothing where it reports an error.
pub uninterp spec fn parsed_date(text: Seq<char>, pattern: Seq<char>) -> Option<(int, int, int)>;

/// The pattern of the dates that the metadata service sends: `2010-07-16`.
pub open spec fn iso_pattern() -> Seq<char> {
    "%Y-%m-%d"@
}

/// The pattern of a long date: the name of the month, the day as it is, and the year.
pub open spec fn long_pattern() -> Seq<char> {
    "%B %-e, %Y"@
}

/// The English name of a month, counted from one.
pub open spec fn month_name(month: int) -> Seq<char> {
    if month == 1 {
        "January"@
    } else if month == 2 {
        "February"@
    } else if month == 3 {
        "March"@
    } else if month == 4 {
        "April"@
    } else if month == 5 {
        "May"@
    } else if month == 6 {
        "June"@
    } else if month == 7 {
        "July"@
    } else if month == 8 {
        "August"@
    } else if month == 9 {
        "September"@
    } else if month == 10 {
        "October"@
    } else if month == 11 {
        "November"@
    } else {
        "December"@
    }
}

/// A number below ten thousand in four digits, with zeros in front where it is short.
pub open spec fn four_digits(n: nat) -> Seq<char> {
    seq![digit(n / 1000 % 10), digit(n / 100 % 10), digit(n / 10 % 10), digit(n % 10)]
}

/// A year as a long date shows it. A year from 0 to 9999 stands in four digits. Any
/// other year has its sign in front, and at least four digits behind the sign.
pub open spec fn year_text(year: int) -> Seq<char> {
    if 0 <= year < 10000 {
        four_digits(year as nat)
    } else if year >= 10000 {
        seq!['+'] + digits(year as nat)
    } else if year > -10000 {
        seq!['-'] + four_digits((-year) as nat)
    } else {
        seq!['-'] + digits((-year) as nat)
    }
}

/// A day of the calendar as a long date: `July 4, 2010`.
pub open spec fn long_date(year: int, month: int, day: int) -> Seq<char> {
    month_name(month) + " "@ + digits(day as nat) + ", "@ + year_text(year)
}

/// The text shown in place of a date that is not known.
pub open spec fn unreleased() -> Seq<char> {
    "Unreleased"@
}

/// What is written for a release date as the metadata service sends it: the long date
/// of the day that chrono reads from it, or nothing where chrono reads none.
pub open spec fn written_date(raw: Seq<char>) -> Option<Seq<char>> {
    match parsed_date(raw, iso_pattern()) {
        Some((year, month, day)) => Some(long_date(year, month, day)),
        None => None,
    }
}

/// The text shown for a date that may have been written out: what was written, or
/// `Unreleased` where nothing was.
pub open spec fn shown_date(written: Option<Seq<char>>) -> Seq<char> {
    present_or(written, unreleased())
}

/// The text shown for the year of a release date, given what was read from the date:
/// the year's numeral, or `Unreleased` where nothing was read.
pub open spec fn shown_year(parsed: Option<(int, int, int)>) -> Seq<char> {
    match parsed {
        Some((year, month, day)) => signed_digits(year),
        None => unreleased(),
    }
}

/// A release date that chrono reads is shown as the long date of that day. One that it
/// does not read is shown as `Unreleased`, and so is a date that is missing.
pub proof fn shown_date_is_long_or_unreleased(raw: Seq<char>)
    ensures
        match parsed_date(raw, iso_pattern()) {
            Some((year, month, day)) => shown_date(written_date(raw)) == long_date(
                year,
                month,
                day,
            ),
            None => shown_date(written_date(raw)) == unreleased(),
        },
        shown_date(None) == unreleased(),
{
    reveal_strlit(", ");
}

/// chrono's `NaiveDate::parse_from_str`, with the date that it reads taken apart into
/// year, month and day by `Datelike`. An error becomes `None`. The date that comes back
/// is a day of the calendar, as every `NaiveDate` is.
#[verifier::external_body]
fn parse_with(text: &str, pattern: &str) -> (date: Option<Date>)
    ensures
        match date {
            Some(d) => d.is_valid() && parsed_date(text@, pattern@) == Some(
                (d.year as int, d.month as int, d.day as int),
            ),
            None => parsed_date(text@, pattern@) is None,
        },
{
    match NaiveDate::parse_from_str(text, pattern) {
        Ok(date) => Some(Date { year: date.year(), month: date.month(), day: date.day() }),
        Err(_) => None,
    }
}

/// chrono's `NaiveDate::format`, written out to a string, for a date built by
/// `NaiveDate::from_ymd_opt`. The date has to be a day of the calendar, or chrono would
/// build none; the pattern has to be the long pattern, because chrono panics on a
/// pattern that it cannot read, and because the contract says what chrono writes under
/// this pattern alone: the English name of the month for `%B`, the day without padding
/// for `%-e`, the year for `%Y` in four digits or with its sign, and the space and the
/// comma as they stand in the pattern.
#[verifier::external_body]
fn format_with(date: Date, pattern: &str) -> (text: String)
    requires
        date.is_valid(),
        pattern@ == long_pattern(),
    ensures
        text@ == long_date(date.year as int, date.month as int, date.day as int),
{
    NaiveDate::from_ymd_opt(date.year, date.month, date.day).unwrap().format(pattern).to_string()
}

impl Date {
    /// Whether the date is a day of the calendar.
    pub open spec fn is_valid(&self) -> bool {
        is_calendar_day(self.year as int, self.month as int, self.day as int)
    }

    /// The date of the three numbers, if they are a day of the calendar.
    pub fn new(year: i32, month: u32, day: u32) -> (date: Option<Date>)
        ensures
            date is Some <==> is_calendar_day(year as int, month as int, day as int),
            date matches Some(d) ==> d.year == year && d.month == month && d.day == day,
    {
        if year < MIN_YEAR || year > MAX_YEAR || month < 1 || month > 12 || day < 1 {
            return None;
        }
        // 262400 is a multiple of 400, so the shifted year has the same remainders.
        let shifted: u32 = (year + 262400) as u32;
        let leap = shifted % 4 == 0 && (shifted % 100 != 0 || shifted % 400 == 0);
        assert(leap == is_leap(year as int));
        let length: u32 = if month == 2 {
            if leap {
                29
            } else {
                28
            }
        } else if month == 4 || month == 6 || month == 9 || month == 11 {
            30
        } else {
            31
        };
        if day > length {
            None
        } else {
            Some(Date { year, month, day })
        }
    }

    /// Reads a date written as year, month and day with hyphens between them.
    pub fn parse(text: &str) -> (date: Option<Date>)
        ensures
            match date {
                Some(d) => d.is_valid() && parsed_date(text@, iso_pattern()) == Some(
                    (d.year as int, d.month as int, d.day as int),
                ),
                None => parsed_date(text@, iso_pattern()) is None,
            },
    {
        parse_with(text, "%Y-%m-%d")
    }

    /// Writes the date as month name, day and year.
    pub fn long_text(&self) -> (text: String)
        requires
            self.is_valid(),
        ensures
            text@ == long_date(self.year as int, self.month as int, self.day as int),
    {
        format_with(*self, "%B %-e, %Y")
    }
}

/// Writes a release date, as the metadata service sends it, as a long date. Nothing is
/// written for a text that is no date.
pub fn write_long_date(raw: &str) -> (written: Option<String>)
    ensures
        opt_text(written) == written_date(raw@),
{
    match Date::parse(raw) {
        Some(date) => Some(date.long_text()),
        None => None,
    }
}

/// The text to show for a date that may have been written out.
pub fn date_or_unreleased(written: Option<String>) -> (text: String)
    ensures
        text@ == shown_date(opt_text(written)),
{
    text_or(written, "Unreleased")
}

/// The text to show for the year of a date that may have been read.
pub fn year_or_unreleased(date: Option<Date>) -> (text: String)
    ensures
        text@ == match date {
            Some(d) => signed_digits(d.year as int),
            None => unreleased(),
        },
{
    match date {
        Some(d) => signed_decimal(d.year),
        None => String::from_str("Unreleased"),
    }
}

} // verus!
