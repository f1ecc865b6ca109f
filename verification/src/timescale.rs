//! The time bucket of an entry, derived from its due day and the current day.

use crate::calendar::{
    date_plus_days, day_before, days_in_month, iso_weekday, local_date_of_millis, local_today,
    weekday_number, CalendarDate, CivilDate, LOCAL_DAY_MAX_MS, LOCAL_DAY_MIN_MS, MAX_YEAR,
    MIN_YEAR,
};
use crate::model::{Entry, EntryTimescale, EntryView};
use vstd::prelude::*;

verus! {

/// The calendar day that an optional date stands for.
pub open spec fn day_view(date: Option<CalendarDate>) -> Option<CivilDate> {
    match date {
        Some(d) => Some(d@),
        None => None,
    }
}

/// The last day of the week of `today`, the coming Sunday, when `today` has
/// the ISO weekday number `weekday`.
pub open spec fn week_end(today: CivilDate, weekday: int) -> CivilDate {
    today.plus_days((7 - weekday) as nat)
}

/// The bucket of an entry that is due on `due`, seen on the day `today`,
/// which has the ISO weekday number `weekday`. A completed entry is
/// `Completed` whatever its due day; one without a due day is `Someday`.
pub open spec fn timescale_of(
    due: Option<CivilDate>,
    is_completed: bool,
    today: CivilDate,
    weekday: int,
) -> EntryTimescale {
    if is_completed {
        EntryTimescale::Completed
    } else {
        match due {
            None => EntryTimescale::Someday,
            Some(day) => {
                if day.precedes(today) {
                    EntryTimescale::Overdue
                } else if day == today {
                    EntryTimescale::Today
                } else if day.not_after(week_end(today, weekday)) {
                    EntryTimescale::ThisWeek
                } else if day.not_after(today.month_end()) {
                    EntryTimescale::ThisMonth
                } else {
                    EntryTimescale::Later
                }
            },
        }
    }
}

/// The last day of a month.
pub fn last_day_of_month(year: i32, month: u32) -> (last: CalendarDate)
    requires
        MIN_YEAR <= year <= MAX_YEAR,
        1 <= month <= 12,
        year == MAX_YEAR ==> month < 12,
    ensures
        last.wf(),
        last@ == (CivilDate {
            year: year as int,
            month: month as int,
            day: days_in_month(year as int, month as int),
        }),
{
    let next_month = if month == 12 {
        1
    } else {
        month + 1
    };
    let next_year = if month == 12 {
        year + 1
    } else {
        year
    };
    let first = CalendarDate { year: next_year, month: next_month, day: 1 };
    day_before(first).unwrap()
}

/// The bucket of an entry on the day `today`, whose ISO weekday number is
/// `weekday`: the rules of [`timescale_of`], for any weekday number.
pub fn classify_in_week(
    due: Option<CalendarDate>,
    is_completed: bool,
    today: CalendarDate,
    weekday: u32,
) -> (scale: EntryTimescale)
    requires
        today.wf(),
        due matches Some(d) ==> d.wf(),
        1 <= weekday <= 7,
    ensures
        scale == timescale_of(day_view(due), is_completed, today@, weekday as int),
{
    if is_completed {
        return EntryTimescale::Completed;
    }
    let day = match due {
        Some(day) => day,
        None => {
            return EntryTimescale::Someday;
        },
    };
    if day.is_before(&today) {
        return EntryTimescale::Overdue;
    }
    if day == today {
        return EntryTimescale::Today;
    }
    let within_week = match date_plus_days(today, 7 - weekday) {
        Some(end) => day.is_not_after(&end),
        None => true,
    };
    if within_week {
        return EntryTimescale::ThisWeek;
    }
    let within_month = if today.year == MAX_YEAR && today.month == 12 {
        true
    } else {
        let end = last_day_of_month(today.year, today.month);
        day.is_not_after(&end)
    };
    if within_month {
        EntryTimescale::ThisMonth
    } else {
        EntryTimescale::Later
    }
}

/// The bucket of an entry on the day `today`. The weekday of `today` comes
/// from the calendar.
pub fn classify(due: Option<CalendarDate>, is_completed: bool, today: CalendarDate) -> (scale:
    EntryTimescale)
    requires
        today.wf(),
        due matches Some(d) ==> d.wf(),
    ensures
        scale == timescale_of(
            day_view(due),
            is_completed,
            today@,
            iso_weekday(today.year as int, today.month as int, today.day as int),
        ),
        1 <= iso_weekday(today.year as int, today.month as int, today.day as int) <= 7,
{
    let weekday = weekday_number(today);
    classify_in_week(due, is_completed, today, weekday)
}

/// The timestamp is one whose local day the calendar can represent in
/// every time zone.
pub open spec fn has_local_day(ts: i64) -> bool {
    LOCAL_DAY_MIN_MS <= ts <= LOCAL_DAY_MAX_MS
}

/// The bucket of an open entry that is due on `due`, seen on the day
/// `today` with the weekday that the calendar gives it.
pub open spec fn open_bucket(due: Option<CalendarDate>, today: CalendarDate) -> EntryTimescale {
    timescale_of(
        day_view(due),
        false,
        today@,
        iso_weekday(today.year as int, today.month as int, today.day as int),
    )
}

/// `scale` is a bucket that an open entry due at `due_ts` can have: the
/// bucket of some day on which the timestamp may fall, seen on some day. A
/// timestamp that has a local day falls on a day; without a timestamp, and
/// with one that has no local day, there is no due day.
pub open spec fn is_bucket_for(due_ts: Option<i64>, scale: EntryTimescale) -> bool {
    exists|due: Option<CalendarDate>, today: CalendarDate|
        {
            &&& today.wf()
            &&& due matches Some(day) ==> day.wf()
            &&& due is Some <==> due_ts is Some && has_local_day(due_ts->0)
            &&& scale == #[trigger] open_bucket(due, today)
        }
}

/// What every bucket of an open entry has in common: it is never
/// `Completed`, and it is `Someday` exactly when the entry has no due time,
/// or one that has no local day.
pub proof fn lemma_bucket_of_open_entry(due_ts: Option<i64>, scale: EntryTimescale)
    requires
        is_bucket_for(due_ts, scale),
    ensures
        scale != EntryTimescale::Completed,
        scale == EntryTimescale::Someday <==> !(due_ts is Some && has_local_day(due_ts->0)),
{
}

/// The bucket of an open entry that is due at `due_ts`, as of now and in the
/// machine's time zone. A timestamp that has no local day, or none that the
/// calendar can represent in every time zone, counts as no due day.
pub fn compute_timescale(due_ts: Option<i64>) -> (scale: EntryTimescale)
    ensures
        is_bucket_for(due_ts, scale),
        scale != EntryTimescale::Completed,
        scale == EntryTimescale::Someday <==> !(due_ts is Some && has_local_day(due_ts->0)),
{
    let due = match due_ts {
        Some(ts) => if ts < LOCAL_DAY_MIN_MS || ts > LOCAL_DAY_MAX_MS {
            None
        } else {
            local_date_of_millis(ts)
        },
        None => None,
    };
    match due {
        Some(day) => {
            let today = local_today();
            let scale = classify(Some(day), false, today);
            assert(scale == open_bucket(due, today));
            scale
        },
        None => {
            let ghost any_day = CalendarDate { year: 2000, month: 1, day: 1 };
            assert(EntryTimescale::Someday == open_bucket(due, any_day));
            EntryTimescale::Someday
        },
    }
}

/// What `entry` is once its bucket is `scale` for as long as it is open.
pub open spec fn with_timescale(entry: EntryView, scale: EntryTimescale) -> EntryView {
    EntryView {
        timescale: if entry.is_completed {
            EntryTimescale::Completed
        } else {
            scale
        },
        ..entry
    }
}

/// Stores the bucket of `entry`: `Completed` for a completed entry, else
/// `scale`.
pub fn set_entry_timescale(entry: &mut Entry, scale: EntryTimescale)
    ensures
        final(entry)@ == with_timescale(old(entry)@, scale),
{
    entry.timescale = if entry.is_completed {
        EntryTimescale::Completed
    } else {
        scale
    };
}

/// Derives the bucket of `entry` anew, as of now, and stores it: a completed
/// entry is `Completed`, an open one has the bucket of its due time.
pub fn refresh_entry_timescale(entry: &mut Entry)
    ensures
        old(entry).is_completed ==> final(entry)@ == with_timescale(
            old(entry)@,
            EntryTimescale::Completed,
        ),
        !old(entry).is_completed ==> exists|scale: EntryTimescale|
            is_bucket_for(old(entry).due_ts, scale) && final(entry)@ == #[trigger] with_timescale(
                old(entry)@,
                scale,
            ),
{
    entry.timescale = if entry.is_completed {
        EntryTimescale::Completed
    } else {
        compute_timescale(entry.due_ts)
    };
    assert(entry@ == with_timescale(old(entry)@, entry.timescale));
}

} // verus!
