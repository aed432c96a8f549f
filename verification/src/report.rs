//! The report that is shown for a commit.

use vstd::prelude::*;

verus! {

/// What stands in a report in place of the message of a commit that has none.
pub const NO_MESSAGE: &'static str = "no commit message";

/// The first second, counted from 1970-01-01 00:00:00 UTC, that a report can
/// show: 0000-01-01 00:00:00 UTC.
pub const FIRST_PRINTABLE_SECOND: i64 = -62_167_219_200;

/// The last second that a report can show: 9999-12-31 23:59:59 UTC.
pub const LAST_PRINTABLE_SECOND: i64 = 253_402_300_799;

/// Whether a time falls in a year from 0 to 9999, the years that the date
/// format of a report can express.
pub open spec fn is_printable_time(seconds: i64) -> bool {
    FIRST_PRINTABLE_SECOND <= seconds <= LAST_PRINTABLE_SECOND
}

/// The RFC 2822 text of a time in UTC, such as
/// `Fri, 15 May 2015 00:00:00 +0000`, as `chrono` writes it.
pub uninterp spec fn rfc2822_utc(seconds: i64) -> Seq<char>;

/// Calls `chrono::TimeZone::timestamp` on `chrono::Utc`, with no nanoseconds,
/// and `chrono::DateTime::to_rfc2822` on what it returns. Both depend on the
/// number of seconds alone, so the text has a name. The first panics where
/// the seconds lie outside the dates that `chrono` holds, the second where
/// the year lies outside 0 to 9999, which is the narrower bound and the one
/// required here.
#[verifier::external_body]
#[allow(deprecated)]
fn format_rfc2822_utc(seconds: i64) -> (text: String)
    requires
        is_printable_time(seconds),
    ensures
        text@ == rfc2822_utc(seconds),
{
    chrono::TimeZone::timestamp(&chrono::Utc, seconds, 0).to_rfc2822()
}

/// The line of a report that holds the message.
pub open spec fn message_line(message: Option<Seq<char>>) -> Seq<char> {
    match message {
        Some(text) => text,
        None => NO_MESSAGE@,
    }
}

/// The report for a commit: its identifier, its author, its date and, after
/// an empty line and indented by four spaces, its message.
pub open spec fn report_text(
    id: Seq<char>,
    author: Seq<char>,
    date: Seq<char>,
    message: Option<Seq<char>>,
) -> Seq<char> {
    "commit "@ + id + "\nAuthor: "@ + author + "\nDate:   "@ + date + "\n\n    "@ + message_line(
        message,
    )
}

/// Whether `text` ends with `tail`.
pub open spec fn ends_with(text: Seq<char>, tail: Seq<char>) -> bool {
    tail.len() <= text.len() && text.subrange(text.len() - tail.len(), text.len() as int) == tail
}

/// The characters of an optional string.
pub open spec fn optional_text(text: Option<&str>) -> Option<Seq<char>> {
    match text {
        Some(t) => Some(t@),
        None => None,
    }
}

/// What a report reads of a commit.
#[derive(Clone, Debug)]
pub struct CommitInfo {
    /// The identifier, in hexadecimal digits.
    pub id: String,
    /// The author, as name and address.
    pub author: String,
    /// The time of the commit, in seconds since 1970-01-01 00:00:00 UTC.
    pub time: i64,
    /// The message, where the commit has one that can be read as text.
    pub message: Option<String>,
}

/// A commit as contracts speak of it.
pub struct CommitText {
    pub id: Seq<char>,
    pub author: Seq<char>,
    pub time: i64,
    pub message: Option<Seq<char>>,
}

impl View for CommitInfo {
    type V = CommitText;

    open spec fn view(&self) -> CommitText {
        CommitText {
            id: self.id@,
            author: self.author@,
            time: self.time,
            message: match self.message {
                Some(text) => Some(text@),
                None => None,
            },
        }
    }
}

impl CommitInfo {
    /// Whether the time of the commit can be shown in a report.
    pub fn has_printable_time(&self) -> (printable: bool)
        ensures
            printable == is_printable_time(self.time),
    {
        FIRST_PRINTABLE_SECOND <= self.time && self.time <= LAST_PRINTABLE_SECOND
    }
}

/// Writes the report from its four parts, the date already as text.
pub fn render_commit(id: &str, author: &str, date: &str, message: Option<&str>) -> (report: String)
    ensures
        report@ == report_text(id@, author@, date@, optional_text(message)),
{
    let mut report = String::from_str("commit ");
    report.append(id);
    report.append("\nAuthor: ");
    report.append(author);
    report.append("\nDate:   ");
    report.append(date);
    report.append("\n\n    ");
    match message {
        Some(text) => report.append(text),
        None => report.append(NO_MESSAGE),
    }
    report
}

/// Writes the report for a commit, with its time as an RFC 2822 date in UTC.
/// A commit without a message is shown with [`NO_MESSAGE`] in its place.
pub fn display_commit(commit: &CommitInfo) -> (report: String)
    requires
        is_printable_time(commit.time),
    ensures
        report@ == report_text(
            commit@.id,
            commit@.author,
            rfc2822_utc(commit@.time),
            commit@.message,
        ),
{
    let date = format_rfc2822_utc(commit.time);
    let message = match &commit.message {
        Some(text) => Some(text.as_str()),
        None => None,
    };
    render_commit(commit.id.as_str(), commit.author.as_str(), date.as_str(), message)
}

/// A report ends with the message of its commit, and with the placeholder
/// where the commit has none: the last line is never empty for want of a
/// message.
pub proof fn lemma_report_ends_with_message(
    id: Seq<char>,
    author: Seq<char>,
    date: Seq<char>,
    message: Option<Seq<char>>,
)
    ensures
        ends_with(report_text(id, author, date, message), message_line(message)),
        message is None ==> ends_with(report_text(id, author, date, message), NO_MESSAGE@),
        NO_MESSAGE@.len() > 0,
{
    reveal_strlit("no commit message");
    let head = "commit "@ + id + "\nAuthor: "@ + author + "\nDate:   "@ + date + "\n\n    "@;
    let tail = message_line(message);
    let report = report_text(id, author, date, message);
    assert(report == head + tail);
    assert(report.subrange(report.len() - tail.len(), report.len() as int) =~= tail);
}

} // verus!
