//! Reporting the output of a running stage.
//!
//! The container engine hands over each line of output with the time at
//! which it was written in front, as `<RFC 3339 time> <line>`. A reporter is
//! given the line and the time apart.

use vstd::prelude::*;
use crate::error::Error;
use crate::text::{
    find, from_chars_range, index_of, lemma_find_is_first, to_chars, trim_end, trimmed_end,
};

verus! {

/// A point in time: the seconds since 1970-01-01 00:00:00 UTC, leap seconds
/// not counted, and the nanoseconds since that second began.
#[derive(Clone, Copy, Debug, PartialEq, Eq, Structural)]
pub struct Timestamp {
    pub secs: i64,
    pub nanos: u32,
}

/// The point in time that `text` writes in RFC 3339, as the parser of
/// `chrono` reads it: seconds and nanoseconds as in [`Timestamp`], or `None`
/// where `text` is no such time.
pub uninterp spec fn rfc3339_instant(text: Seq<char>) -> Option<(i64, u32)>;

/// Calls `chrono::DateTime::parse_from_rfc3339` and, on the time that it
/// read, `timestamp` and `timestamp_subsec_nanos`. The result is what
/// [`rfc3339_instant`] names.
#[verifier::external_body]
fn parse_rfc3339(text: &str) -> (r: Option<(i64, u32)>)
    ensures
        r == rfc3339_instant(text@),
{
    match chrono::DateTime::parse_from_rfc3339(text) {
        Ok(t) => Some((t.timestamp(), t.timestamp_subsec_nanos())),
        Err(_) => None,
    }
}

/// Calls `chrono::Utc::now`: the current time, of which nothing is known
/// beforehand.
#[verifier::external_body]
pub(crate) fn now() -> (r: Timestamp) {
    let t = chrono::Utc::now();
    Timestamp { secs: t.timestamp(), nanos: t.timestamp_subsec_nanos() }
}

/// A line of output and the time at which it was written.
#[derive(Debug)]
pub struct LogLine {
    pub line: String,
    pub timestamp: Timestamp,
}

/// The two parts of `raw` around its first space: what stands before it and
/// what follows it. `None` where `raw` holds no space.
pub open spec fn halves(raw: Seq<char>) -> Option<(Seq<char>, Seq<char>)> {
    let k = find(raw, ' ');
    if 0 <= k < raw.len() {
        Some((raw.take(k), raw.skip(k + 1)))
    } else {
        None
    }
}

/// The line that the time `instant` and the text `rest` behind it make:
/// `rest` without the whitespace at its end, written at `instant`.
pub open spec fn dated(rest: Seq<char>, instant: (i64, u32)) -> (Seq<char>, Timestamp) {
    (trimmed_end(rest), Timestamp { secs: instant.0, nanos: instant.1 })
}

/// The line and the time that `raw` holds: `raw` is a time in RFC 3339, a
/// space, and the line, which may end in whitespace that does not belong to
/// it. `None` where `raw` holds no space or does not begin with such a time.
pub open spec fn log_line(raw: Seq<char>) -> Option<(Seq<char>, Timestamp)> {
    match halves(raw) {
        Some((time, rest)) => match rfc3339_instant(time) {
            Some(instant) => Some(dated(rest, instant)),
            None => None,
        },
        None => None,
    }
}

/// Splits `raw` at its first space.
pub fn split_at_space(raw: &str) -> (r: Option<(String, String)>)
    ensures
        r.deep_view() == halves(raw@),
{
    let chars = to_chars(raw);
    let k = index_of(&chars, 0, ' ');
    proof {
        assert(chars@.skip(0) =~= chars@);
        lemma_find_is_first(chars@, ' ');
    }
    if k < chars.len() {
        let time = from_chars_range(&chars, 0, k);
        let rest = from_chars_range(&chars, k + 1, chars.len());
        assert(chars@.take(k as int) =~= chars@.subrange(0, k as int));
        assert(chars@.skip(k + 1) =~= chars@.subrange(k + 1, chars@.len() as int));
        Some((time, rest))
    } else {
        None
    }
}

impl LogLine {
    /// The line made of the text `rest` that followed the time `instant`.
    pub fn new(rest: &str, instant: (i64, u32)) -> (r: LogLine)
        ensures
            (r.line@, r.timestamp) == dated(rest@, instant),
    {
        LogLine { line: trim_end(rest), timestamp: Timestamp { secs: instant.0, nanos: instant.1 } }
    }

    /// Reads a line of output as the container engine hands it over.
    pub fn parse(raw: &str) -> (r: Option<LogLine>)
        ensures
            match r {
                Some(l) => log_line(raw@) == Some((l.line@, l.timestamp)),
                None => log_line(raw@) is None,
            },
    {
        match split_at_space(raw) {
            Some((time, rest)) => match parse_rfc3339(time.as_str()) {
                Some(instant) => Some(LogLine::new(rest.as_str(), instant)),
                None => None,
            },
            None => None,
        }
    }
}

/// Reporting running status and logs.
pub trait Reporter {
    /// Reports a line of standard output as the container engine hands it
    /// over, with its time in front: `report_stdout` gets the two apart.
    fn emit_stdout(&self, raw: &str) -> (r: Result<(), Error>)
        requires
            log_line(raw@) is Some,
        ensures
            exists|line: &str| #[trigger] line@ == log_line(raw@).unwrap().0
                && call_ensures(Self::report_stdout, (self, line, log_line(raw@).unwrap().1), r),
    {
        let l = LogLine::parse(raw).unwrap();
        self.report_stdout(l.line.as_str(), l.timestamp)
    }

    /// As `emit_stdout`, for a line of standard error and `report_stderr`.
    fn emit_stderr(&self, raw: &str) -> (r: Result<(), Error>)
        requires
            log_line(raw@) is Some,
        ensures
            exists|line: &str| #[trigger] line@ == log_line(raw@).unwrap().0
                && call_ensures(Self::report_stderr, (self, line, log_line(raw@).unwrap().1), r),
    {
        let l = LogLine::parse(raw).unwrap();
        self.report_stderr(l.line.as_str(), l.timestamp)
    }

    /// Reports console output, which carries no time, to `report_stdout`.
    fn emit_console(&self, raw: &str) -> (r: Result<(), Error>)
        ensures
            exists|line: &str, timestamp: Timestamp| #[trigger]
                call_ensures(Self::report_stdout, (self, line, timestamp), r) && line@
                    == trimmed_end(raw@),
    {
        let line = trim_end(raw);
        self.report_stdout(line.as_str(), now())
    }

    /// Takes a line of standard output and the time at which it was written.
    fn report_stdout(&self, line: &str, timestamp: Timestamp) -> (r: Result<(), Error>);

    /// Takes a line of standard error and the time at which it was written.
    fn report_stderr(&self, line: &str, timestamp: Timestamp) -> (r: Result<(), Error>);
}

} // verus!
