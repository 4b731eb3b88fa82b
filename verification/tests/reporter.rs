use std::cell::RefCell;

use srun::reporter::{split_at_space, LogLine, Reporter, Timestamp};
use srun::Error;

struct Lines {
    seen: RefCell<Vec<(String, String, Option<Timestamp>)>>,
}

impl Lines {
    fn new() -> Lines {
        Lines { seen: RefCell::new(Vec::new()) }
    }
}

impl Reporter for Lines {
    fn report_stdout(&self, line: &str, timestamp: Timestamp) -> Result<(), Error> {
        self.seen
            .borrow_mut()
            .push((String::from("out"), String::from(line), Some(timestamp)));
        Ok(())
    }

    fn report_stderr(&self, line: &str, timestamp: Timestamp) -> Result<(), Error> {
        self.seen
            .borrow_mut()
            .push((String::from("err"), String::from(line), Some(timestamp)));
        Ok(())
    }
}

#[test]
fn a_line_is_split_at_its_first_space() {
    assert_eq!(
        split_at_space("a b c"),
        Some((String::from("a"), String::from("b c")))
    );
    assert_eq!(split_at_space(" x"), Some((String::new(), String::from("x"))));
    assert_eq!(split_at_space("x "), Some((String::from("x"), String::new())));
    assert_eq!(split_at_space("nospace"), None);
    assert_eq!(split_at_space(""), None);
}

#[test]
fn a_log_line_holds_its_time_and_its_text() {
    let line = LogLine::parse("2021-05-01T12:00:00.5Z hello world \n").unwrap();
    assert_eq!(line.line, "hello world");
    assert_eq!(line.timestamp, Timestamp { secs: 1619870400, nanos: 500000000 });
}

#[test]
fn the_offset_of_the_time_is_taken_into_account() {
    let line = LogLine::parse("1996-12-19T16:39:57-08:00 x").unwrap();
    assert_eq!(line.timestamp, Timestamp { secs: 851042397, nanos: 0 });
    assert_eq!(line.line, "x");
    let epoch = LogLine::parse("1970-01-01T00:00:00Z ").unwrap();
    assert_eq!(epoch.timestamp, Timestamp { secs: 0, nanos: 0 });
    assert_eq!(epoch.line, "");
}

#[test]
fn a_line_without_a_time_is_no_log_line() {
    assert!(LogLine::parse("hello world").is_none());
    assert!(LogLine::parse("2021-05-01T12:00:00Z").is_none());
    assert!(LogLine::parse("").is_none());
    assert!(LogLine::parse(" 2021-05-01T12:00:00Z x").is_none());
}

#[test]
fn the_text_behind_the_time_is_trimmed_at_its_end_only() {
    let line = LogLine::new("  two  words\t\n", (5, 6));
    assert_eq!(line.line, "  two  words");
    assert_eq!(line.timestamp, Timestamp { secs: 5, nanos: 6 });
}

#[test]
fn emitting_hands_the_line_and_the_time_apart() {
    let lines = Lines::new();
    lines.emit_stdout("2021-05-01T12:00:00Z hi\n").unwrap();
    lines.emit_stderr("2021-05-01T12:00:01Z oops\r\n").unwrap();
    let seen = lines.seen.borrow();
    assert_eq!(seen.len(), 2);
    assert_eq!(
        seen[0],
        (
            String::from("out"),
            String::from("hi"),
            Some(Timestamp { secs: 1619870400, nanos: 0 })
        )
    );
    assert_eq!(
        seen[1],
        (
            String::from("err"),
            String::from("oops"),
            Some(Timestamp { secs: 1619870401, nanos: 0 })
        )
    );
}

#[test]
fn console_output_goes_to_standard_output() {
    let lines = Lines::new();
    lines.emit_console("plain text  \n").unwrap();
    let seen = lines.seen.borrow();
    assert_eq!(seen.len(), 1);
    assert_eq!(seen[0].0, "out");
    assert_eq!(seen[0].1, "plain text");
    assert!(seen[0].2.unwrap().secs > 1600000000);
}
