//! Calendar dates, parsed and formatted by `chrono`.

use crate::text::zero_padded;
use chrono::Datelike;
use core::cmp::Ordering;
use vstd::prelude::*;

verus! {

/// A day of the proleptic Gregorian calendar: year, month and day of the
/// month. Every `Date` exists in the calendar and lies in the range that
/// `chrono::NaiveDate` can hold.
///
/// Dates compare in the order of time.
#[derive(Debug, Clone, Copy, PartialEq, Eq, Ord, Structural)]
pub struct Date {
    year: i32,
    month: u32,
    day: u32,
}

/// What a [`Date`] stands for in specifications. Year 0 is the year before
/// year 1; months and days count from 1.
pub struct DateView {
    pub year: int,
    pub month: int,
    pub day: int,
}

/// The first year that `chrono::NaiveDate` can hold.
pub const MIN_YEAR: i32 = -262143;

/// The last year that `chrono::NaiveDate` can hold.
pub const MAX_YEAR: i32 = 262142;

/// Leap years of the proleptic Gregorian calendar.
pub open spec fn is_leap_year(year: int) -> bool {
    year % 4 == 0 && (year % 100 != 0 || year % 400 == 0)
}

/// The number of days of a month.
pub open spec fn days_in_month(year: int, month: int) -> int {
    if month == 2 {
        if is_leap_year(year) {
            29
        } else {
            28
        }
    } else if month == 4 || month == 6 || month == 9 || month == 11 {
        30
    } else {
        31
    }
}

/// A year as `chrono` writes it for `%Y`: with four digits at least, and
/// with its sign where it is not one of the years 0 to 9999.
pub open spec fn year_text(year: int) -> Seq<char> {
    if 0 <= year < 10000 {
        zero_padded(year as nat, 4)
    } else if year < 0 {
        "-"@ + zero_padded((-year) as nat, 4)
    } else {
        "+"@ + zero_padded(year as nat, 4)
    }
}

impl DateView {
    /// The days that exist and that `chrono::NaiveDate` can hold.
    pub open spec fn is_calendar_date(self) -> bool {
        &&& MIN_YEAR <= self.year <= MAX_YEAR
        &&& 1 <= self.month <= 12
        &&& 1 <= self.day <= days_in_month(self.year, self.month)
    }

    /// `self` is the same day as `other` or an earlier one.
    pub open spec fn le(self, other: DateView) -> bool {
        ||| self.year < other.year
        ||| self.year == other.year && self.month < other.month
        ||| self.year == other.year && self.month == other.month && self.day <= other.day
    }

    /// The day in the canonical encoding: year, month and day with hyphens
    /// between them, followed by a time of day that is always midnight.
    pub open spec fn canonical_text(self) -> Seq<char> {
        year_text(self.year) + "-"@ + zero_padded(self.month as nat, 2) + "-"@ + zero_padded(
            self.day as nat,
            2,
        ) + ":00:00:00"@
    }
}

/// The order of days is total: any two days compare, a day is not later
/// than itself, two days that are not later than each other are one day,
/// and what is not later than a day is not later than any later day.
pub proof fn lemma_order_of_days_is_total(a: DateView, b: DateView, c: DateView)
    ensures
        a.le(a),
        a.le(b) || b.le(a),
        a.le(b) && b.le(a) ==> a == b,
        a.le(b) && b.le(c) ==> a.le(c),
{
}

/// The date that `chrono::NaiveDate::parse_from_str(value, format)` yields,
/// or `None` where it reports an error.
pub uninterp spec fn parsed_date(value: Seq<char>, format: Seq<char>) -> Option<DateView>;

/// `chrono::ParseError`: why `chrono` could not read a date. Nothing is
/// known of its value.
#[verifier::external_type_specification]
#[verifier::external_body]
pub struct ExParseError(chrono::ParseError);

/// `chrono::NaiveDate::parse_from_str`, with the date handed back as year,
/// month and day. Trusted: the outcome is a function of the two strings,
/// and a date that comes back exists in the calendar.
#[verifier::external_body]
fn naive_date_parse(value: &str, format: &str) -> (r: Result<(i32, u32, u32), chrono::ParseError>)
    ensures
        r matches Ok(d) ==> {
            let date = DateView { year: d.0 as int, month: d.1 as int, day: d.2 as int };
            date.is_calendar_date() && parsed_date(value@, format@) == Some(date)
        },
        r is Err ==> parsed_date(value@, format@) is None,
{
    match chrono::NaiveDate::parse_from_str(value, format) {
        Ok(d) => Ok((d.year(), d.month(), d.day())),
        Err(e) => Err(e),
    }
}

/// `chrono::NaiveDate::from_ymd_opt`, then `format` and `to_string`, for
/// the canonical format. Trusted: `%Y` writes the year with four digits at
/// least and with a sign outside the years 0 to 9999, `%m` and `%d` write
/// month and day with two digits, and the rest of the format is written as
/// it stands. The call panics on a date that does not exist and on a format
/// with a specifier that a date cannot fill, so only calendar dates and the
/// canonical format are admitted.
#[verifier::external_body]
fn naive_date_format(year: i32, month: u32, day: u32, format: &str) -> (text: String)
    requires
        (DateView { year: year as int, month: month as int, day: day as int }).is_calendar_date(),
        format@ == Date::DEFAULT_FORMAT@,
    ensures
        text@ == (DateView {
            year: year as int,
            month: month as int,
            day: day as int,
        }).canonical_text(),
{
    chrono::NaiveDate::from_ymd_opt(year, month, day).unwrap().format(format).to_string()
}

/// `chrono::Local::now`, cut down to the local calendar date. Trusted: the
/// date exists in the calendar. Nothing else is known of it.
#[verifier::external_body]
fn local_today() -> (d: (i32, u32, u32))
    ensures
        (DateView { year: d.0 as int, month: d.1 as int, day: d.2 as int }).is_calendar_date(),
{
    let today = chrono::Local::now().naive_local().date();
    (today.year(), today.month(), today.day())
}

#[derive(Debug)]
pub enum DateError {
    /// Holds the text that could not be read as a date.
    ParseError(String),
}

impl View for Date {
    type V = DateView;

    closed spec fn view(&self) -> DateView {
        DateView { year: self.year as int, month: self.month as int, day: self.day as int }
    }
}

impl PartialOrd for Date {
    fn partial_cmp(&self, other: &Self) -> (r: Option<Ordering>) {
        if self.year < other.year {
            Some(Ordering::Less)
        } else if self.year > other.year {
            Some(Ordering::Greater)
        } else if self.month < other.month {
            Some(Ordering::Less)
        } else if self.month > other.month {
            Some(Ordering::Greater)
        } else if self.day < other.day {
            Some(Ordering::Less)
        } else if self.day > other.day {
            Some(Ordering::Greater)
        } else {
            Some(Ordering::Equal)
        }
    }
}

impl vstd::std_specs::cmp::PartialOrdSpecImpl for Date {
    open spec fn obeys_partial_cmp_spec() -> bool {
        true
    }

    /// Dates compare as the days that they stand for.
    open spec fn partial_cmp_spec(&self, other: &Self) -> Option<Ordering> {
        if self@ == other@ {
            Some(Ordering::Equal)
        } else if self@.le(other@) {
            Some(Ordering::Less)
        } else {
            Some(Ordering::Greater)
        }
    }
}

impl Date {
    /// The canonical encoding of a date as text, as a format for `chrono`.
    pub const DEFAULT_FORMAT: &'static str = "%Y-%m-%d:00:00:00";

    #[verifier::type_invariant]
    spec fn exists_in_calendar(self) -> bool {
        self@.is_calendar_date()
    }

    /// Today's date in the local time zone.
    pub fn now() -> (today: Self)
        ensures
            today@.is_calendar_date(),
    {
        let (year, month, day) = local_today();
        Self { year, month, day }
    }

    /// Reads a date in the canonical encoding.
    pub fn from_str(value: &str) -> (r: Result<Self, DateError>)
        ensures
            Self::parse_outcome(value@, Self::DEFAULT_FORMAT@, r),
    {
        Self::parse_from_str(value, Self::DEFAULT_FORMAT)
    }

    /// What `parse_from_str` returns for `value` and `format`: the date that
    /// `chrono` reads, or an error that holds `value`.
    pub open spec fn parse_outcome(
        value: Seq<char>,
        format: Seq<char>,
        r: Result<Date, DateError>,
    ) -> bool {
        match parsed_date(value, format) {
            Some(date) => r matches Ok(d) && d@ == date && date.is_calendar_date(),
            None => r matches Err(DateError::ParseError(text)) && text@ == value,
        }
    }

    /// Reads a date from `value` under the strftime format `format`. Parts
    /// of `value` that give a time of day or an offset are read and dropped.
    pub fn parse_from_str(value: &str, format: &str) -> (r: Result<Self, DateError>)
        ensures
            Self::parse_outcome(value@, format@, r),
    {
        match naive_date_parse(value, format) {
            Ok((year, month, day)) => Ok(Self { year, month, day }),
            Err(_) => Err(DateError::ParseError(value.to_owned())),
        }
    }

    /// The date in the canonical encoding.
    pub fn to_string(&self) -> (text: String)
        ensures
            text@ == self@.canonical_text(),
            self@.is_calendar_date(),
    {
        proof {
            use_type_invariant(self);
        }
        naive_date_format(self.year, self.month, self.day, Self::DEFAULT_FORMAT)
    }
}

} // verus!
