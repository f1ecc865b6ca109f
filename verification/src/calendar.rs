//! Calendar days as the store sees them: plain year, month and day, with the
//! clock and the calendar arithmetic taken from `chrono`.
//!
//! `chrono` reads the clock and the time zone rules of the machine. Where
//! these are broken, with a clock before 1970 or zone rules that cannot be
//! applied, it panics, and no argument of a call can prevent that.

use chrono::{Datelike, Duration, Local, LocalResult, NaiveDate, TimeZone};
use vstd::prelude::*;

verus! {

/// The first year that the calendar can represent.
pub const MIN_YEAR: i32 = -262_143;

/// The last year that the calendar can represent.
pub const MAX_YEAR: i32 = 262_142;

/// The earliest timestamp, in milliseconds since the Unix epoch, whose local
/// day can be represented in every time zone: one day after the first
/// instant of `MIN_YEAR`.
pub const LOCAL_DAY_MIN_MS: i64 = -8_334_601_142_400_000;

/// The latest timestamp, in milliseconds since the Unix epoch, whose local
/// day can be represented in every time zone: one day before the last
/// millisecond of `MAX_YEAR`.
pub const LOCAL_DAY_MAX_MS: i64 = 8_210_266_790_399_999;

/// A day of the proleptic Gregorian calendar, as a mathematical value.
pub struct CivilDate {
    pub year: int,
    pub month: int,
    pub day: int,
}

/// Whether `year` has a 29th of February.
pub open spec fn is_leap_year(year: int) -> bool {
    year % 4 == 0 && (year % 100 != 0 || year % 400 == 0)
}

/// The number of days of a month.
pub open spec fn days_in_month(year: int, month: int) -> int {
    if month == 2 {
        if is_leap_year(year) {
            29
        } else {
            28
        }
    } else if month == 4 || month == 6 || month == 9 || month == 11 {
        30
    } else {
        31
    }
}

/// The ISO 8601 number of the weekday on which a calendar day falls, from 1
/// for Monday to 7 for Sunday, as `chrono` computes it.
pub uninterp spec fn iso_weekday(year: int, month: int, day: int) -> int;

impl CivilDate {
    /// The day exists in the calendar.
    pub open spec fn is_valid(self) -> bool {
        &&& 1 <= self.month <= 12
        &&& 1 <= self.day <= days_in_month(self.year, self.month)
    }

    /// The day lies in the years that the calendar can represent.
    pub open spec fn in_range(self) -> bool {
        MIN_YEAR <= self.year <= MAX_YEAR
    }

    /// `self` is an earlier day than `other`.
    pub open spec fn precedes(self, other: CivilDate) -> bool {
        ||| self.year < other.year
        ||| self.year == other.year && self.month < other.month
        ||| self.year == other.year && self.month == other.month && self.day < other.day
    }

    /// `self` is `other` or an earlier day.
    pub open spec fn not_after(self, other: CivilDate) -> bool {
        self == other || self.precedes(other)
    }

    /// The day after `self`.
    pub open spec fn next(self) -> CivilDate {
        if self.day < days_in_month(self.year, self.month) {
            CivilDate { day: self.day + 1, ..self }
        } else if self.month < 12 {
            CivilDate { year: self.year, month: self.month + 1, day: 1 }
        } else {
            CivilDate { year: self.year + 1, month: 1, day: 1 }
        }
    }

    /// The day before `self`.
    pub open spec fn previous(self) -> CivilDate {
        if self.day > 1 {
            CivilDate { day: self.day - 1, ..self }
        } else if self.month > 1 {
            CivilDate {
                year: self.year,
                month: self.month - 1,
                day: days_in_month(self.year, self.month - 1),
            }
        } else {
            CivilDate { year: self.year - 1, month: 12, day: 31 }
        }
    }

    /// The day `days` days after `self`.
    pub open spec fn plus_days(self, days: nat) -> CivilDate
        decreases days,
    {
        if days == 0 {
            self
        } else {
            self.next().plus_days((days - 1) as nat)
        }
    }

    /// The last day of the month of `self`.
    pub open spec fn month_end(self) -> CivilDate {
        CivilDate { day: days_in_month(self.year, self.month), ..self }
    }
}

/// A calendar day in plain numbers.
#[derive(Debug, Clone, Copy, PartialEq, Eq, Structural)]
pub struct CalendarDate {
    pub year: i32,
    pub month: u32,
    pub day: u32,
}

impl View for CalendarDate {
    type V = CivilDate;

    open spec fn view(&self) -> CivilDate {
        CivilDate { year: self.year as int, month: self.month as int, day: self.day as int }
    }
}

impl CalendarDate {
    /// The day exists and lies in the years that the calendar can represent.
    pub open spec fn wf(&self) -> bool {
        self@.is_valid() && self@.in_range()
    }

    /// The day of the given numbers, where there is such a day.
    pub fn new(year: i32, month: u32, day: u32) -> (date: Option<CalendarDate>)
        ensures
            date is Some <==> (CalendarDate { year, month, day }).wf(),
            date is Some ==> date->0 == (CalendarDate { year, month, day }),
    {
        if year < MIN_YEAR || year > MAX_YEAR || month < 1 || month > 12 || day < 1 {
            return None;
        }
        if day > month_length(year, month) {
            return None;
        }
        Some(CalendarDate { year, month, day })
    }

    /// Whether `self` is an earlier day than `other`.
    pub fn is_before(&self, other: &CalendarDate) -> (earlier: bool)
        ensures
            earlier == self@.precedes(other@),
    {
        self.year < other.year || (self.year == other.year && (self.month < other.month || (
        self.month == other.month && self.day < other.day)))
    }

    /// Whether `self` is `other` or an earlier day.
    pub fn is_not_after(&self, other: &CalendarDate) -> (within: bool)
        ensures
            within == self@.not_after(other@),
    {
        !other.is_before(self)
    }
}

/// Whether `year` has a 29th of February.
pub fn leap_year(year: i32) -> (leap: bool)
    requires
        MIN_YEAR <= year <= MAX_YEAR,
    ensures
        leap == is_leap_year(year as int),
{
    // 262_400 is a multiple of 400 above every year before the common era.
    let shifted: i32 = year + 262_400;
    shifted % 4 == 0 && (shifted % 100 != 0 || shifted % 400 == 0)
}

/// The number of days of a month.
pub fn month_length(year: i32, month: u32) -> (days: u32)
    requires
        MIN_YEAR <= year <= MAX_YEAR,
        1 <= month <= 12,
    ensures
        days == days_in_month(year as int, month as int),
{
    if month == 2 {
        if leap_year(year) {
            29
        } else {
            28
        }
    } else if month == 4 || month == 6 || month == 9 || month == 11 {
        30
    } else {
        31
    }
}

/// Reads the clock through chrono's `Local::now` and gives the timestamp of
/// that instant in milliseconds since the Unix epoch. Nothing is claimed of
/// the value.
#[verifier::external_body]
pub(crate) fn now_ts() -> i64 {
    Local::now().timestamp_millis()
}

/// Reads the clock through chrono's `Local::now` and gives the calendar day
/// of that instant in the machine's time zone. The contract claims only that
/// the day exists and is one that the calendar can represent.
#[verifier::external_body]
pub(crate) fn local_today() -> (today: CalendarDate)
    ensures
        today.wf(),
{
    let day = Local::now().date_naive();
    CalendarDate { year: day.year(), month: day.month(), day: day.day() }
}

/// Converts a timestamp with chrono's `TimeZone::timestamp_millis_opt` on
/// `Local` and gives the calendar day on which it falls in the machine's
/// time zone. For a timestamp within its range chrono always gives a single
/// local time, so a day comes back. Which day depends on the time zone: the
/// contract claims only that it exists and can be represented. The bounds
/// keep the local day inside the calendar whatever the offset from UTC.
#[verifier::external_body]
pub(crate) fn local_date_of_millis(ts: i64) -> (date: Option<CalendarDate>)
    requires
        LOCAL_DAY_MIN_MS <= ts <= LOCAL_DAY_MAX_MS,
    ensures
        date is Some,
        date matches Some(d) ==> d.wf(),
{
    match Local.timestamp_millis_opt(ts) {
        LocalResult::Single(at) => {
            let day = at.date_naive();
            Some(CalendarDate { year: day.year(), month: day.month(), day: day.day() })
        },
        LocalResult::Ambiguous(_, _) => None,
        LocalResult::None => None,
    }
}

/// Asks chrono for the weekday of a day, `NaiveDate::weekday`, and for its
/// ISO number, `Weekday::number_from_monday`: 1 for Monday to 7 for Sunday.
/// The contract names that number `iso_weekday` of the day.
#[verifier::external_body]
pub(crate) fn weekday_number(date: CalendarDate) -> (number: u32)
    requires
        date.wf(),
    ensures
        number == iso_weekday(date.year as int, date.month as int, date.day as int),
        1 <= number <= 7,
{
    NaiveDate::from_ymd_opt(date.year, date.month, date.day).unwrap().weekday().number_from_monday()
}

/// Adds whole days to a day with chrono's `NaiveDate::checked_add_signed`:
/// the day that many days later, or nothing where that day lies beyond the
/// last year of the calendar.
#[verifier::external_body]
pub(crate) fn date_plus_days(date: CalendarDate, days: u32) -> (later: Option<CalendarDate>)
    requires
        date.wf(),
        days <= 7,
    ensures
        match later {
            Some(d) => d@ == date@.plus_days(days as nat),
            None => date@.plus_days(days as nat).year > MAX_YEAR,
        },
{
    let start = NaiveDate::from_ymd_opt(date.year, date.month, date.day).unwrap();
    start.checked_add_signed(Duration::days(i64::from(days))).map(
        |d| CalendarDate { year: d.year(), month: d.month(), day: d.day() },
    )
}

/// Steps one day back with chrono's `NaiveDate::pred_opt`: the day before,
/// or nothing where `date` is the first day of the calendar.
#[verifier::external_body]
pub(crate) fn day_before(date: CalendarDate) -> (earlier: Option<CalendarDate>)
    requires
        date.wf(),
    ensures
        match earlier {
            Some(d) => d@ == date@.previous(),
            None => date@.previous().year < MIN_YEAR,
        },
{
    let start = NaiveDate::from_ymd_opt(date.year, date.month, date.day).unwrap();
    start.pred_opt().map(|d| CalendarDate { year: d.year(), month: d.month(), day: d.day() })
}

} // verus!
