use std::time::{SystemTime, UNIX_EPOCH};

use todo_core::timescale::set_entry_timescale;
use todo_core::{
    classify, classify_in_week, compute_timescale, last_day_of_month, refresh_entry_timescale,
    CalendarDate, Entry, EntryPriority, EntryStatus, EntryTimescale,
};

fn day(year: i32, month: u32, day: u32) -> CalendarDate {
    CalendarDate::new(year, month, day).expect("a day of the calendar")
}

fn open_entry(due_ts: Option<i64>) -> Entry {
    Entry {
        id: 1,
        title: "Write report".to_string(),
        summary: String::new(),
        description: String::new(),
        project: None,
        status: EntryStatus::Backlog,
        timescale: EntryTimescale::Later,
        priority: EntryPriority::Medium,
        due_ts,
        start_ts: None,
        dependencies: Vec::new(),
        note_ids: Vec::new(),
        assignees: Vec::new(),
        is_completed: false,
        completed_at_ts: None,
    }
}

fn now_millis() -> i64 {
    let since = SystemTime::now().duration_since(UNIX_EPOCH).expect("a clock after 1970");
    since.as_millis() as i64
}

const DAY_MS: i64 = 86_400_000;

#[test]
fn due_yesterday_is_overdue() {
    let today = day(2024, 6, 10);
    assert_eq!(classify(Some(day(2024, 6, 9)), false, today), EntryTimescale::Overdue);
}

#[test]
fn due_today_is_today() {
    let today = day(2024, 6, 10);
    assert_eq!(classify(Some(day(2024, 6, 10)), false, today), EntryTimescale::Today);
}

#[test]
fn due_on_the_coming_sunday_is_this_week() {
    let today = day(2024, 6, 10);
    assert_eq!(classify(Some(day(2024, 6, 11)), false, today), EntryTimescale::ThisWeek);
    assert_eq!(classify(Some(day(2024, 6, 16)), false, today), EntryTimescale::ThisWeek);
}

#[test]
fn due_after_the_week_is_this_month() {
    let today = day(2024, 6, 10);
    assert_eq!(classify(Some(day(2024, 6, 17)), false, today), EntryTimescale::ThisMonth);
    assert_eq!(classify(Some(day(2024, 6, 30)), false, today), EntryTimescale::ThisMonth);
}

#[test]
fn due_after_the_month_is_later() {
    let today = day(2024, 6, 10);
    assert_eq!(classify(Some(day(2024, 7, 1)), false, today), EntryTimescale::Later);
    assert_eq!(classify(Some(day(2024, 7, 5)), false, today), EntryTimescale::Later);
}

#[test]
fn no_due_day_is_someday() {
    assert_eq!(classify(None, false, day(2024, 6, 10)), EntryTimescale::Someday);
}

#[test]
fn completed_wins_over_any_due_day() {
    let today = day(2024, 6, 10);
    assert_eq!(classify(Some(day(2024, 6, 9)), true, today), EntryTimescale::Completed);
    assert_eq!(classify(Some(day(2024, 7, 5)), true, today), EntryTimescale::Completed);
    assert_eq!(classify(None, true, today), EntryTimescale::Completed);
}

#[test]
fn on_a_sunday_the_week_ends_today() {
    let sunday = day(2024, 6, 16);
    assert_eq!(classify(Some(day(2024, 6, 17)), false, sunday), EntryTimescale::ThisMonth);
    assert_eq!(classify(Some(day(2024, 6, 16)), false, sunday), EntryTimescale::Today);
}

#[test]
fn a_week_may_reach_into_the_next_month_and_year() {
    // 2024-12-30 is a Monday; its week ends on Sunday 2025-01-05.
    let today = day(2024, 12, 30);
    assert_eq!(classify(Some(day(2024, 12, 31)), false, today), EntryTimescale::ThisWeek);
    assert_eq!(classify(Some(day(2025, 1, 5)), false, today), EntryTimescale::ThisWeek);
    assert_eq!(classify(Some(day(2025, 1, 6)), false, today), EntryTimescale::Later);
}

#[test]
fn the_weekday_comes_from_the_calendar() {
    // 2024-06-12 is a Wednesday: four days are left in its week.
    let today = day(2024, 6, 12);
    assert_eq!(classify(Some(day(2024, 6, 16)), false, today), EntryTimescale::ThisWeek);
    assert_eq!(classify(Some(day(2024, 6, 17)), false, today), EntryTimescale::ThisMonth);
    assert_eq!(
        classify(Some(day(2024, 6, 16)), false, today),
        classify_in_week(Some(day(2024, 6, 16)), false, today, 3)
    );
}

#[test]
fn any_weekday_number_can_be_given() {
    let today = day(2024, 6, 10);
    // Taken as a Saturday, the week of the 10th ends on the 11th.
    assert_eq!(classify_in_week(Some(day(2024, 6, 11)), false, today, 6), EntryTimescale::ThisWeek);
    assert_eq!(
        classify_in_week(Some(day(2024, 6, 12)), false, today, 6),
        EntryTimescale::ThisMonth
    );
    // Taken as a Sunday, it ends on the 10th itself.
    assert_eq!(
        classify_in_week(Some(day(2024, 6, 11)), false, today, 7),
        EntryTimescale::ThisMonth
    );
}

#[test]
fn the_last_days_of_the_calendar_are_classified() {
    let today = day(262_142, 12, 28);
    let last = day(262_142, 12, 31);
    let scale = classify(Some(last), false, today);
    assert!(scale == EntryTimescale::ThisWeek || scale == EntryTimescale::ThisMonth);
    assert_eq!(classify(Some(last), false, last), EntryTimescale::Today);
    assert_eq!(classify(Some(today), false, last), EntryTimescale::Overdue);
}

#[test]
fn last_day_of_month_knows_leap_years() {
    assert_eq!(last_day_of_month(2024, 2), day(2024, 2, 29));
    assert_eq!(last_day_of_month(2023, 2), day(2023, 2, 28));
    assert_eq!(last_day_of_month(1900, 2), day(1900, 2, 28));
    assert_eq!(last_day_of_month(2000, 2), day(2000, 2, 29));
    assert_eq!(last_day_of_month(2024, 6), day(2024, 6, 30));
    assert_eq!(last_day_of_month(2024, 12), day(2024, 12, 31));
    assert_eq!(last_day_of_month(-4, 2), day(-4, 2, 29));
}

#[test]
fn calendar_date_new_refuses_days_that_do_not_exist() {
    assert!(CalendarDate::new(2023, 2, 29).is_none());
    assert!(CalendarDate::new(2024, 2, 29).is_some());
    assert!(CalendarDate::new(2024, 4, 31).is_none());
    assert!(CalendarDate::new(2024, 0, 1).is_none());
    assert!(CalendarDate::new(2024, 13, 1).is_none());
    assert!(CalendarDate::new(2024, 1, 0).is_none());
    assert!(CalendarDate::new(262_143, 1, 1).is_none());
    assert!(CalendarDate::new(-262_144, 12, 31).is_none());
    assert!(CalendarDate::new(262_142, 12, 31).is_some());
    assert!(CalendarDate::new(-262_143, 1, 1).is_some());
    let made = CalendarDate::new(2024, 6, 10).expect("a day");
    assert_eq!((made.year, made.month, made.day), (2024, 6, 10));
}

#[test]
fn calendar_dates_are_ordered_by_year_month_day() {
    assert!(day(2024, 6, 9).is_before(&day(2024, 6, 10)));
    assert!(day(2024, 5, 31).is_before(&day(2024, 6, 1)));
    assert!(day(2023, 12, 31).is_before(&day(2024, 1, 1)));
    assert!(!day(2024, 6, 10).is_before(&day(2024, 6, 10)));
    assert!(!day(2024, 6, 11).is_before(&day(2024, 6, 10)));
    assert!(day(2024, 6, 10).is_not_after(&day(2024, 6, 10)));
    assert!(!day(2024, 6, 11).is_not_after(&day(2024, 6, 10)));
}

#[test]
fn compute_timescale_without_a_due_date_is_someday() {
    assert_eq!(compute_timescale(None), EntryTimescale::Someday);
}

#[test]
fn compute_timescale_reads_the_clock() {
    assert_eq!(compute_timescale(Some(0)), EntryTimescale::Overdue);
    assert_eq!(compute_timescale(Some(now_millis() - 3 * DAY_MS)), EntryTimescale::Overdue);
    assert_eq!(compute_timescale(Some(now_millis() + 40 * DAY_MS)), EntryTimescale::Later);
    let soon = compute_timescale(Some(now_millis() + 2 * DAY_MS));
    assert!(
        soon == EntryTimescale::ThisWeek
            || soon == EntryTimescale::ThisMonth
            || soon == EntryTimescale::Later
    );
}

#[test]
fn compute_timescale_beyond_the_calendar_is_someday() {
    assert_eq!(compute_timescale(Some(i64::MAX)), EntryTimescale::Someday);
    assert_eq!(compute_timescale(Some(i64::MIN)), EntryTimescale::Someday);
    assert_eq!(compute_timescale(Some(8_210_266_790_400_000)), EntryTimescale::Someday);
    assert_eq!(compute_timescale(Some(8_210_266_790_399_999)), EntryTimescale::Later);
    assert_eq!(compute_timescale(Some(-8_334_601_142_400_000)), EntryTimescale::Overdue);
    assert_eq!(compute_timescale(Some(-8_334_601_142_400_001)), EntryTimescale::Someday);
}

#[test]
fn refresh_stores_the_bucket_on_the_entry() {
    let mut entry = open_entry(Some(0));
    refresh_entry_timescale(&mut entry);
    assert_eq!(entry.timescale, EntryTimescale::Overdue);

    let mut undated = open_entry(None);
    refresh_entry_timescale(&mut undated);
    assert_eq!(undated.timescale, EntryTimescale::Someday);

    let mut done = open_entry(Some(0));
    done.is_completed = true;
    refresh_entry_timescale(&mut done);
    assert_eq!(done.timescale, EntryTimescale::Completed);
    assert_eq!(done.title, "Write report");
    assert_eq!(done.due_ts, Some(0));
}

#[test]
fn set_entry_timescale_keeps_completed_entries_completed() {
    let mut entry = open_entry(None);
    set_entry_timescale(&mut entry, EntryTimescale::ThisWeek);
    assert_eq!(entry.timescale, EntryTimescale::ThisWeek);
    entry.is_completed = true;
    set_entry_timescale(&mut entry, EntryTimescale::ThisWeek);
    assert_eq!(entry.timescale, EntryTimescale::Completed);
}
