use commit_workflow::report::{
    display_commit, render_commit, CommitInfo, FIRST_PRINTABLE_SECOND, LAST_PRINTABLE_SECOND,
    NO_MESSAGE,
};

fn commit_at(time: i64, message: Option<&str>) -> CommitInfo {
    CommitInfo {
        id: "8f3a1c0de2b44a6f9d0c7e5b1a2f3c4d5e6f7a8b".to_string(),
        author: "Ada Lovelace <ada@example.org>".to_string(),
        time,
        message: message.map(String::from),
    }
}

#[test]
fn render_commit_joins_the_four_parts() {
    let report = render_commit("abc123", "A <a@b.c>", "Thu, 1 Jan 1970 00:00:00 +0000", Some("Hi"));
    assert_eq!(
        report,
        "commit abc123\nAuthor: A <a@b.c>\nDate:   Thu, 1 Jan 1970 00:00:00 +0000\n\n    Hi"
    );
}

#[test]
fn render_commit_without_message_shows_the_placeholder() {
    let report = render_commit("abc123", "A <a@b.c>", "today", None);
    assert_eq!(report, "commit abc123\nAuthor: A <a@b.c>\nDate:   today\n\n    no commit message");
}

#[test]
fn render_commit_keeps_an_empty_message_empty() {
    let report = render_commit("abc123", "A <a@b.c>", "today", Some(""));
    assert_eq!(report, "commit abc123\nAuthor: A <a@b.c>\nDate:   today\n\n    ");
}

#[test]
fn display_commit_writes_the_date_in_utc() {
    let commit = commit_at(1431648000, Some("Initial commit\n"));
    assert!(commit.has_printable_time());
    assert_eq!(
        display_commit(&commit),
        "commit 8f3a1c0de2b44a6f9d0c7e5b1a2f3c4d5e6f7a8b\n\
         Author: Ada Lovelace <ada@example.org>\n\
         Date:   Fri, 15 May 2015 00:00:00 +0000\n\
         \n    Initial commit\n"
    );
}

#[test]
fn display_commit_at_the_epoch() {
    let report = display_commit(&commit_at(0, Some("x")));
    assert!(report.contains("\nDate:   Thu, 1 Jan 1970 00:00:00 +0000\n"));
}

#[test]
fn display_commit_before_the_epoch() {
    let report = display_commit(&commit_at(-1, Some("x")));
    assert!(report.contains("\nDate:   Wed, 31 Dec 1969 23:59:59 +0000\n"));
}

#[test]
fn display_commit_without_message_ends_with_the_placeholder() {
    let report = display_commit(&commit_at(1431648000, None));
    assert!(report.ends_with("\n\n    no commit message"));
    assert!(report.contains(NO_MESSAGE));
    assert!(!report.ends_with("\n\n    "));
    assert_eq!(NO_MESSAGE.len(), 17);
}

#[test]
fn display_commit_differs_with_the_time() {
    let first = display_commit(&commit_at(1431648000, Some("m")));
    let second = display_commit(&commit_at(1431648001, Some("m")));
    assert_ne!(first, second);
    assert!(second.contains("Fri, 15 May 2015 00:00:01 +0000"));
}

#[test]
fn first_printable_second_opens_the_year_zero() {
    let commit = commit_at(FIRST_PRINTABLE_SECOND, Some("m"));
    assert!(commit.has_printable_time());
    assert_eq!(FIRST_PRINTABLE_SECOND, -62_167_219_200);
    assert!(display_commit(&commit).contains("\nDate:   Sat, 1 Jan 0000 00:00:00 +0000\n"));
}

#[test]
fn last_printable_second_closes_the_year_9999() {
    let commit = commit_at(LAST_PRINTABLE_SECOND, Some("m"));
    assert!(commit.has_printable_time());
    assert_eq!(LAST_PRINTABLE_SECOND, 253_402_300_799);
    assert!(display_commit(&commit).contains("\nDate:   Fri, 31 Dec 9999 23:59:59 +0000\n"));
}

#[test]
fn times_outside_the_four_digit_years_are_not_printable() {
    assert!(!commit_at(FIRST_PRINTABLE_SECOND - 1, None).has_printable_time());
    assert!(!commit_at(LAST_PRINTABLE_SECOND + 1, None).has_printable_time());
    assert!(!commit_at(i64::MIN, None).has_printable_time());
    assert!(!commit_at(i64::MAX, None).has_printable_time());
}

#[test]
fn bounds_of_printable_time_are_where_the_year_turns() {
    let before = chrono::DateTime::from_timestamp(FIRST_PRINTABLE_SECOND - 1, 0).unwrap();
    let after = chrono::DateTime::from_timestamp(LAST_PRINTABLE_SECOND + 1, 0).unwrap();
    assert_eq!(chrono::Datelike::year(&before), -1);
    assert_eq!(chrono::Datelike::year(&after), 10000);
}
