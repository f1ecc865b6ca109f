use chrono::{DateTime, Datelike, FixedOffset, NaiveDate, TimeZone};
use todo_core::calendar::{
    leap_year, month_length, LOCAL_DAY_MAX_MS, LOCAL_DAY_MIN_MS, MAX_YEAR, MIN_YEAR,
};

const DAY_MS: i64 = 86_400_000;

#[test]
fn the_year_limits_are_those_of_the_calendar() {
    assert_eq!(NaiveDate::MAX, NaiveDate::from_ymd_opt(MAX_YEAR, 12, 31).expect("the last day"));
    assert_eq!(NaiveDate::MIN, NaiveDate::from_ymd_opt(MIN_YEAR, 1, 1).expect("the first day"));
    assert!(NaiveDate::from_ymd_opt(MAX_YEAR + 1, 1, 1).is_none());
    assert!(NaiveDate::from_ymd_opt(MIN_YEAR - 1, 12, 31).is_none());
}

#[test]
fn the_timestamp_limits_lie_one_day_inside_the_calendar() {
    assert!(DateTime::from_timestamp_millis(LOCAL_DAY_MAX_MS + DAY_MS).is_some());
    assert!(DateTime::from_timestamp_millis(LOCAL_DAY_MAX_MS + DAY_MS + 1).is_none());
    assert!(DateTime::from_timestamp_millis(LOCAL_DAY_MIN_MS - DAY_MS).is_some());
    assert!(DateTime::from_timestamp_millis(LOCAL_DAY_MIN_MS - DAY_MS - 1).is_none());
}

#[test]
fn no_offset_pushes_a_timestamp_within_the_limits_out_of_the_calendar() {
    let east = FixedOffset::east_opt(86_399).expect("the largest offset");
    let west = FixedOffset::west_opt(86_399).expect("the smallest offset");
    let last = east.timestamp_millis_opt(LOCAL_DAY_MAX_MS).single().expect("a time");
    assert_eq!(last.date_naive(), NaiveDate::MAX);
    let first = west.timestamp_millis_opt(LOCAL_DAY_MIN_MS).single().expect("a time");
    assert_eq!(first.date_naive(), NaiveDate::MIN);
    let late = west.timestamp_millis_opt(LOCAL_DAY_MAX_MS).single().expect("a time");
    assert_eq!(late.date_naive().year(), MAX_YEAR);
    let early = east.timestamp_millis_opt(LOCAL_DAY_MIN_MS).single().expect("a time");
    assert_eq!(early.date_naive().year(), MIN_YEAR);
}

fn day_after_by_the_rules(year: i32, month: u32, day: u32) -> (i32, u32, u32) {
    if day < month_length(year, month) {
        (year, month, day + 1)
    } else if month < 12 {
        (year, month + 1, 1)
    } else {
        (year + 1, 1, 1)
    }
}

fn day_before_by_the_rules(year: i32, month: u32, day: u32) -> (i32, u32, u32) {
    if day > 1 {
        (year, month, day - 1)
    } else if month > 1 {
        (year, month - 1, month_length(year, month - 1))
    } else {
        (year - 1, 12, 31)
    }
}

fn numbers(date: NaiveDate) -> (i32, u32, u32) {
    (date.year(), date.month(), date.day())
}

#[test]
fn the_calendar_steps_by_the_rules_of_the_months() {
    let starts = [(1899, 11, 1), (1999, 11, 1), (2023, 1, 1), (-5, 1, 1), (-401, 6, 1)];
    for (year, month, day) in starts {
        let mut date = NaiveDate::from_ymd_opt(year, month, day).expect("a day");
        for _ in 0..900 {
            let next = date.succ_opt().expect("a next day");
            let (y, m, d) = numbers(date);
            assert_eq!(numbers(next), day_after_by_the_rules(y, m, d), "after {}", date);
            let (ny, nm, nd) = numbers(next);
            assert_eq!(numbers(date), day_before_by_the_rules(ny, nm, nd), "before {}", next);
            date = next;
        }
    }
}

#[test]
fn leap_years_are_those_of_the_calendar() {
    for year in (-820..=2420).chain([MIN_YEAR, MIN_YEAR + 1, MAX_YEAR - 1, MAX_YEAR]) {
        let has_leap_day = NaiveDate::from_ymd_opt(year, 2, 29).is_some();
        assert_eq!(leap_year(year), has_leap_day, "year {}", year);
        assert_eq!(month_length(year, 2), if has_leap_day { 29 } else { 28 });
    }
    let lengths: Vec<u32> = (1..=12).map(|month| month_length(2023, month)).collect();
    assert_eq!(lengths, vec![31, 28, 31, 30, 31, 30, 31, 31, 30, 31, 30, 31]);
}
