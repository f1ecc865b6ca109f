use std::collections::HashSet;

use chrono::{Datelike, Duration, NaiveDate};
use todo_core::links::{sync_entries_with_note, sync_notes_with_entry};
use todo_core::{
    classify, last_day_of_month, summarize_text, CalendarDate, Entry, EntryPriority, EntryStatus,
    EntryTimescale, Note,
};

fn plain_day(date: NaiveDate) -> CalendarDate {
    CalendarDate::new(date.year(), date.month(), date.day()).expect("a day of the calendar")
}

fn month_end(year: i32, month: u32) -> NaiveDate {
    let next_month = if month == 12 { 1 } else { month + 1 };
    let next_year = if month == 12 { year + 1 } else { year };
    NaiveDate::from_ymd_opt(next_year, next_month, 1)
        .expect("a first of the month")
        .pred_opt()
        .expect("a day before")
}

fn bucket_by_date_arithmetic(due: NaiveDate, today: NaiveDate) -> EntryTimescale {
    if due < today {
        return EntryTimescale::Overdue;
    }
    if due == today {
        return EntryTimescale::Today;
    }
    let weekday = i64::from(today.weekday().number_from_monday());
    let end_of_week = today + Duration::days(7 - weekday);
    if due <= end_of_week {
        return EntryTimescale::ThisWeek;
    }
    if due <= month_end(today.year(), today.month()) {
        return EntryTimescale::ThisMonth;
    }
    EntryTimescale::Later
}

fn first_line_by_the_standard_library(text: &str) -> String {
    let trimmed = text.trim();
    if trimmed.is_empty() {
        return "No description yet.".to_string();
    }
    trimmed.lines().next().unwrap_or(trimmed).chars().take(120).collect()
}

struct Dice(u64);

impl Dice {
    fn roll(&mut self, sides: u64) -> u64 {
        self.0 = self
            .0
            .wrapping_mul(6_364_136_223_846_793_005)
            .wrapping_add(1_442_695_040_888_963_407);
        (self.0 >> 33) % sides
    }

    fn ids(&mut self, most: u64) -> Vec<u64> {
        let count = self.roll(most + 1);
        (0..count).map(|_| self.roll(6) + 1).collect()
    }
}

fn rolled_note(id: u64, dice: &mut Dice) -> Note {
    Note {
        id,
        title: String::new(),
        content: String::new(),
        pinned: false,
        tags: Vec::new(),
        linked_entry_ids: dice.ids(5),
        summary: String::new(),
        accent: String::new(),
        last_edited_ts: 0,
    }
}

fn rolled_entry(id: u64, dice: &mut Dice) -> Entry {
    Entry {
        id,
        title: String::new(),
        summary: String::new(),
        description: String::new(),
        project: None,
        status: EntryStatus::Backlog,
        timescale: EntryTimescale::Someday,
        priority: EntryPriority::Low,
        due_ts: None,
        start_ts: None,
        dependencies: Vec::new(),
        note_ids: dice.ids(5),
        assignees: Vec::new(),
        is_completed: false,
        completed_at_ts: None,
    }
}

fn synced_by_retain(
    links: &mut Vec<u64>,
    own_id: u64,
    target: u64,
    desired: &HashSet<u64>,
) -> bool {
    if desired.contains(&own_id) {
        if !links.contains(&target) {
            links.push(target);
            return true;
        }
        false
    } else {
        let before = links.len();
        links.retain(|id| *id != target);
        links.len() != before
    }
}

#[test]
fn buckets_agree_with_date_arithmetic_over_three_years() {
    let mut today = NaiveDate::from_ymd_opt(2023, 1, 1).expect("a day");
    let end = NaiveDate::from_ymd_opt(2025, 12, 31).expect("a day");
    while today <= end {
        for offset in -3..=40 {
            let due = today + Duration::days(offset);
            assert_eq!(
                classify(Some(plain_day(due)), false, plain_day(today)),
                bucket_by_date_arithmetic(due, today),
                "due {} seen on {}",
                due,
                today
            );
        }
        today = today.succ_opt().expect("a next day");
    }
}

#[test]
fn buckets_agree_at_the_turns_of_centuries_and_eras() {
    for (year, month, day) in
        [(1899, 12, 25), (1900, 2, 24), (2000, 2, 24), (2100, 2, 24), (-1, 12, 27), (0, 2, 25)]
    {
        let start = NaiveDate::from_ymd_opt(year, month, day).expect("a day");
        for shift in 0..14 {
            let today = start + Duration::days(shift);
            for offset in -1..=35 {
                let due = today + Duration::days(offset);
                assert_eq!(
                    classify(Some(plain_day(due)), false, plain_day(today)),
                    bucket_by_date_arithmetic(due, today),
                    "due {} seen on {}",
                    due,
                    today
                );
            }
        }
    }
}

#[test]
fn month_ends_agree_with_date_arithmetic() {
    for year in [-400, -1, 0, 1, 1600, 1900, 1999, 2000, 2023, 2024, 2100, 262_141] {
        for month in 1..=12 {
            assert_eq!(last_day_of_month(year, month), plain_day(month_end(year, month)));
        }
    }
}

#[test]
fn summaries_agree_with_the_standard_line_splitter() {
    let long_line = "long ".repeat(40);
    let texts = [
        "",
        " ",
        "\n",
        "\r\n",
        "one",
        "one\n",
        "one\r\n",
        "one\r",
        "one\rtwo",
        "one\r\ntwo",
        "one\n\rtwo",
        "one\r\r\ntwo",
        "\r\none\ntwo",
        "  \t one two \n three",
        "\u{a0}kept\u{a0}",
        "\u{2028}line separator\u{2028}more",
        "\u{85}next line\u{85}more",
        "tab\tinside\nrest",
        "a\u{b}b\u{c}c\nd",
        "ünïcödé first\nsecond",
        long_line.as_str(),
    ];
    for text in texts {
        assert_eq!(summarize_text(text), first_line_by_the_standard_library(text), "{:?}", text);
    }
    let wide = format!("{}\r\n{}", "漢".repeat(119), "x");
    assert_eq!(summarize_text(&wide), first_line_by_the_standard_library(&wide));
    let wider = format!("{}\r\n{}", "漢".repeat(121), "x");
    assert_eq!(summarize_text(&wider), first_line_by_the_standard_library(&wider));
}

#[test]
fn note_syncs_agree_with_a_set_and_retain() {
    let mut dice = Dice(7);
    for _ in 0..300 {
        let count = dice.roll(6);
        let mut notes: Vec<Note> = (1..=count).map(|id| rolled_note(id, &mut dice)).collect();
        let target = dice.roll(6) + 1;
        let wish = dice.ids(6);
        let desired: HashSet<u64> = wish.iter().copied().collect();

        let mut expected: Vec<Vec<u64>> = Vec::new();
        let mut expected_touched: Vec<u64> = Vec::new();
        for note in &notes {
            let mut links = note.linked_entry_ids.clone();
            if synced_by_retain(&mut links, note.id, target, &desired) {
                expected_touched.push(note.id);
            }
            expected.push(links);
        }

        let touched = sync_notes_with_entry(&mut notes, target, &wish);
        let links: Vec<Vec<u64>> = notes.iter().map(|note| note.linked_entry_ids.clone()).collect();
        let touched_ids: Vec<u64> = touched.iter().map(|note| note.id).collect();
        assert_eq!(links, expected);
        assert_eq!(touched_ids, expected_touched);
        for note in &touched {
            assert_eq!(note.linked_entry_ids, expected[(note.id - 1) as usize]);
        }
        assert!(sync_notes_with_entry(&mut notes, target, &wish).is_empty());
    }
}

#[test]
fn entry_syncs_agree_with_a_set_and_retain() {
    let mut dice = Dice(11);
    for _ in 0..300 {
        let count = dice.roll(6);
        let mut entries: Vec<Entry> = (1..=count).map(|id| rolled_entry(id, &mut dice)).collect();
        let target = dice.roll(6) + 1;
        let wish = dice.ids(6);
        let desired: HashSet<u64> = wish.iter().copied().collect();

        let mut expected: Vec<Vec<u64>> = Vec::new();
        let mut expected_touched: Vec<u64> = Vec::new();
        for entry in &entries {
            let mut links = entry.note_ids.clone();
            if synced_by_retain(&mut links, entry.id, target, &desired) {
                expected_touched.push(entry.id);
            }
            expected.push(links);
        }

        let touched = sync_entries_with_note(&mut entries, target, &wish);
        let links: Vec<Vec<u64>> = entries.iter().map(|entry| entry.note_ids.clone()).collect();
        let touched_ids: Vec<u64> = touched.iter().map(|entry| entry.id).collect();
        assert_eq!(links, expected);
        assert_eq!(touched_ids, expected_touched);
        assert!(sync_entries_with_note(&mut entries, target, &wish).is_empty());
    }
}
