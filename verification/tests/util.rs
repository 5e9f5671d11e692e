use chrono::TimeZone;
use verbosio::level::{Destination, Level, TagColor};
use verbosio::text::{ascii_equals, join3};
use verbosio::util::{
    bracket, format_level, format_time, level_named, time_prefix, TIMESTAMP_PATTERN,
};

fn is_stamp(text: &str) -> bool {
    let bytes = text.as_bytes();
    bytes.len() == 19
        && bytes.iter().enumerate().all(|(i, b)| match i {
            4 | 7 => *b == b'-',
            10 => *b == b' ',
            13 | 16 => *b == b':',
            _ => b.is_ascii_digit(),
        })
}

#[test]
fn a_tag_without_colour_is_the_name_in_brackets() {
    assert_eq!(format_level("INFO", false), "[INFO] ");
    assert_eq!(format_level("WARN", false), "[WARN] ");
    assert_eq!(format_level("ERROR", false), "[ERROR] ");
    assert_eq!(format_level("DEBUG", false), "[DEBUG] ");
}

#[test]
fn any_name_is_bracketed_without_colour() {
    assert_eq!(format_level("TRACE", false), "[TRACE] ");
    assert_eq!(format_level("info", false), "[info] ");
    assert_eq!(format_level("", false), "[] ");
    assert_eq!(format_level("\u{00e9}t\u{00e9}", false), "[\u{00e9}t\u{00e9}] ");
}

#[test]
fn level_named_knows_the_four_names() {
    assert_eq!(level_named("INFO"), Some(Level::Info));
    assert_eq!(level_named("WARN"), Some(Level::Warn));
    assert_eq!(level_named("ERROR"), Some(Level::Error));
    assert_eq!(level_named("DEBUG"), Some(Level::Debug));
}

#[test]
fn level_named_knows_no_other_name() {
    assert_eq!(level_named(""), None);
    assert_eq!(level_named("info"), None);
    assert_eq!(level_named("INFO "), None);
    assert_eq!(level_named("INF"), None);
    assert_eq!(level_named("INFOS"), None);
    assert_eq!(level_named("PLAIN"), None);
    assert_eq!(level_named("WARNING"), None);
    assert_eq!(level_named("DEBU\u{0047}\u{0301}"), None);
    assert_eq!(level_named("\u{0130}NFO"), None);
}

#[test]
fn labels_are_the_names_in_capitals() {
    assert_eq!(Level::Plain.label(), "");
    assert_eq!(Level::Info.label(), "INFO");
    assert_eq!(Level::Warn.label(), "WARN");
    assert_eq!(Level::Error.label(), "ERROR");
    assert_eq!(Level::Debug.label(), "DEBUG");
}

#[test]
fn only_errors_go_to_standard_error() {
    assert_eq!(Level::Plain.stream(), Destination::Stdout);
    assert_eq!(Level::Info.stream(), Destination::Stdout);
    assert_eq!(Level::Warn.stream(), Destination::Stdout);
    assert_eq!(Level::Debug.stream(), Destination::Stdout);
    assert_eq!(Level::Error.stream(), Destination::Stderr);
}

#[test]
fn each_level_has_its_colour() {
    assert_eq!(Level::Plain.tag_color(), None);
    assert_eq!(Level::Info.tag_color(), Some(TagColor::Blue));
    assert_eq!(Level::Warn.tag_color(), Some(TagColor::Yellow));
    assert_eq!(Level::Debug.tag_color(), Some(TagColor::Yellow));
    assert_eq!(Level::Error.tag_color(), Some(TagColor::Red));
}

#[test]
fn bracket_adds_brackets_and_a_space() {
    assert_eq!(bracket("x"), "[x] ");
    assert_eq!(bracket(""), "[] ");
    assert_eq!(bracket("[x] "), "[[x] ] ");
}

#[test]
fn join3_keeps_the_order() {
    assert_eq!(join3("a", "b", "c"), "abc");
    assert_eq!(join3("", "b", ""), "b");
    assert_eq!(join3("", "", ""), "");
}

#[test]
fn ascii_equals_compares_whole_texts() {
    assert!(ascii_equals("", ""));
    assert!(ascii_equals("INFO", "INFO"));
    assert!(!ascii_equals("INFO", "INFo"));
    assert!(!ascii_equals("INFO", "INF"));
    assert!(!ascii_equals("INF", "INFO"));
    assert!(!ascii_equals("", "a"));
}

#[test]
fn no_time_prefix_without_timestamps() {
    assert_eq!(format_time(false, "2024-01-02 03:04:05"), "");
    assert_eq!(format_time(false, ""), "");
}

#[test]
fn the_time_prefix_is_the_reading_in_brackets() {
    assert_eq!(format_time(true, "2024-01-02 03:04:05"), "[2024-01-02 03:04:05] ");
    assert_eq!(format_time(true, "1969-12-31 23:59:59"), "[1969-12-31 23:59:59] ");
    assert_eq!(format_time(true, "+10000-01-01 00:00:00"), "[+10000-01-01 00:00:00] ");
}

#[test]
fn time_prefix_brackets_the_reading() {
    assert_eq!(time_prefix("2024-01-02 03:04:05"), "[2024-01-02 03:04:05] ");
}

#[test]
fn the_pattern_gives_date_and_time_to_the_second() {
    let reading = chrono::Local::now().format(TIMESTAMP_PATTERN).to_string();
    assert!(is_stamp(&reading), "{:?}", reading);
    let prefix = format_time(true, &reading);
    assert_eq!(prefix.len(), 22, "{:?}", prefix);
    assert!(prefix.starts_with('['));
    assert!(prefix.ends_with("] "));
    assert!(is_stamp(&prefix[1..20]), "{:?}", prefix);
}

#[test]
fn the_pattern_fixes_every_field() {
    let moment = chrono::Utc.with_ymd_and_hms(2024, 1, 2, 3, 4, 5).unwrap();
    let reading = moment.format(TIMESTAMP_PATTERN).to_string();
    assert_eq!(reading, "2024-01-02 03:04:05");
    assert_eq!(format_time(true, &reading), "[2024-01-02 03:04:05] ");
}

#[test]
fn the_pattern_is_date_then_time() {
    assert_eq!(TIMESTAMP_PATTERN, "%Y-%m-%d %H:%M:%S");
}
