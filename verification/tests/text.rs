use todo_core::text::{any_contains, is_blank, is_wildcard, summarize_trimmed, SUMMARY_LIMIT};
use todo_core::{random_accent_for, summarize_text};

fn tags(names: &[&str]) -> Vec<String> {
    names.iter().map(|name| name.to_string()).collect()
}

#[test]
fn summary_of_blank_text_is_the_placeholder() {
    assert_eq!(summarize_text(""), "No description yet.");
    assert_eq!(summarize_text("   \n\t  "), "No description yet.");
}

#[test]
fn summary_is_the_first_line_of_the_trimmed_text() {
    assert_eq!(summarize_text("Buy milk"), "Buy milk");
    assert_eq!(summarize_text("  Buy milk  "), "Buy milk");
    assert_eq!(summarize_text("\n\n  First line\nSecond line\n"), "First line");
    assert_eq!(summarize_text("First line\r\nSecond line"), "First line");
    assert_eq!(summarize_text("First\rstill first\nSecond"), "First\rstill first");
    assert_eq!(summarize_text("a\n"), "a");
    assert_eq!(summarize_text("a\r\n\r\nb"), "a");
}

#[test]
fn summary_of_a_trimmed_text_takes_the_text_as_it_is() {
    assert_eq!(summarize_trimmed(""), "No description yet.");
    assert_eq!(summarize_trimmed("one\ntwo"), "one");
    assert_eq!(summarize_trimmed("one\r\ntwo"), "one");
    assert_eq!(summarize_trimmed("\ntwo"), "");
    assert_eq!(summarize_trimmed("  padded  "), "  padded  ");
    assert_eq!(summarize_trimmed(" "), " ");
    assert_eq!(summarize_trimmed("\r\n"), "");
    assert_eq!(summarize_trimmed("\r"), "\r");
    assert_eq!(summarize_trimmed(&"q".repeat(121)), "q".repeat(120));
}

#[test]
fn summary_is_cut_to_the_limit() {
    assert_eq!(SUMMARY_LIMIT, 120);
    let long = "x".repeat(300);
    assert_eq!(summarize_text(&long), "x".repeat(120));
    let exact = "y".repeat(120);
    assert_eq!(summarize_text(&exact), exact);
    let one_more = "z".repeat(121);
    assert_eq!(summarize_text(&one_more), "z".repeat(120));
    let two_lines = format!("{}\nrest", "w".repeat(119));
    assert_eq!(summarize_text(&two_lines), "w".repeat(119));
}

#[test]
fn summary_counts_characters_not_bytes() {
    let long = "é".repeat(200);
    let summary = summarize_text(&long);
    assert_eq!(summary.chars().count(), 120);
    assert_eq!(summary, "é".repeat(120));
    let line = format!("{}\r\nnext", "ü".repeat(120));
    assert_eq!(summarize_text(&line), "ü".repeat(120));
}

#[test]
fn blank_means_nothing_but_white_space() {
    assert!(is_blank(""));
    assert!(is_blank("   "));
    assert!(is_blank(" \t\r\n"));
    assert!(is_blank("\u{2003}"));
    assert!(!is_blank(" a "));
    assert!(!is_blank("_"));
}

#[test]
fn wildcard_is_the_single_star() {
    assert!(is_wildcard("*"));
    assert!(!is_wildcard(""));
    assert!(!is_wildcard("**"));
    assert!(!is_wildcard("a"));
    assert!(!is_wildcard(" *"));
}

#[test]
fn any_contains_looks_into_every_text() {
    let list = tags(&["alpha", "beta", "gamma"]);
    assert!(any_contains(&list, "amm"));
    assert!(any_contains(&list, "alpha"));
    assert!(any_contains(&list, ""));
    assert!(!any_contains(&list, "delta"));
    assert!(!any_contains(&list, "Alpha"));
    assert!(!any_contains(&[], "a"));
    assert!(!any_contains(&[], ""));
}

#[test]
fn accent_follows_the_tags() {
    assert_eq!(random_accent_for(&tags(&["Focus"])), "#c7d2fe");
    assert_eq!(random_accent_for(&tags(&["Deep Focus time"])), "#c7d2fe");
    assert_eq!(random_accent_for(&tags(&["Sprint 12"])), "#fee2e2");
    assert_eq!(random_accent_for(&tags(&["misc"])), "#e0f2fe");
    assert_eq!(random_accent_for(&[]), "#e0f2fe");
}

#[test]
fn accent_prefers_focus_and_minds_the_case() {
    assert_eq!(random_accent_for(&tags(&["Sprint", "Focus"])), "#c7d2fe");
    assert_eq!(random_accent_for(&tags(&["focus"])), "#e0f2fe");
    assert_eq!(random_accent_for(&tags(&["sprint", "Sprint"])), "#fee2e2");
}
