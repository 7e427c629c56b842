use phantom_ci::logging::{log_job_end, log_job_start, LogLevel};
use phantom_ci::text::{
    contains_text, decimal_text, find_text, last_segment, parse_decimal, preview, split_words, trim,
};

#[test]
fn trim_removes_outer_blanks() {
    assert_eq!(trim("  abc def \n"), "abc def");
    assert_eq!(trim("\t\r\n "), "");
    assert_eq!(trim(""), "");
}

#[test]
fn parse_decimal_accepts_digits_only() {
    assert_eq!(parse_decimal("0"), Some(0));
    assert_eq!(parse_decimal("042"), Some(42));
    assert_eq!(parse_decimal("18446744073709551615"), Some(u64::MAX));
    assert_eq!(parse_decimal("18446744073709551616"), None);
    assert_eq!(parse_decimal("x"), None);
    assert_eq!(parse_decimal("1a"), None);
    assert_eq!(parse_decimal("-1"), None);
    assert_eq!(parse_decimal(""), None);
}

#[test]
fn split_words_drops_blanks() {
    assert_eq!(split_words("  cargo   test --all "), vec!["cargo", "test", "--all"]);
    assert!(split_words("   ").is_empty());
}

#[test]
fn preview_cuts_long_text() {
    assert_eq!(preview("abcdef", 3), "abc...");
    assert_eq!(preview("abc", 3), "abc");
    let long = "x".repeat(5000);
    assert_eq!(preview(&long, 4000).chars().count(), 4003);
}

#[test]
fn last_segment_after_slash() {
    assert_eq!(last_segment("git@github.com:me/sys-compare"), "sys-compare");
    assert_eq!(last_segment("plain"), "plain");
    assert_eq!(last_segment("ends/"), "");
}

#[test]
fn find_first_occurrence() {
    assert_eq!(find_text("abcabc", "ca"), Some(2));
    assert_eq!(find_text("abc", "d"), None);
    assert!(contains_text("myroot", "root"));
    assert!(!contains_text("alice", "root"));
}

#[test]
fn decimal_text_and_job_lines() {
    assert_eq!(decimal_text(0), "0");
    assert_eq!(decimal_text(1207), "1207");
    assert_eq!(log_job_start(7), (LogLevel::Info, "Job 7 started".to_string()));
    assert_eq!(log_job_end(12, true), (LogLevel::Info, "Job 12 succeeded".to_string()));
    assert_eq!(log_job_end(12, false), (LogLevel::Error, "Job 12 failed".to_string()));
}
