//! Lines for the log. The library writes none: it hands them to its caller.

use vstd::prelude::*;
use vstd::string::StringExecFns;

verus! {

/// How serious a log entry is.
#[derive(Clone, Copy, Debug, PartialEq, Eq, Structural)]
pub enum LogLevel {
    Info,
    Error,
}

/// One line for the log.
#[derive(Clone, Debug, PartialEq, Eq)]
pub struct LogEntry {
    pub level: LogLevel,
    pub message: String,
}

/// A log entry as plain text.
pub struct LogEntryView {
    pub level: LogLevel,
    pub message: Seq<char>,
}

impl View for LogEntry {
    type V = LogEntryView;

    open spec fn view(&self) -> LogEntryView {
        LogEntryView { level: self.level, message: self.message@ }
    }
}

/// The entries of a log as plain text.
pub open spec fn log_views(entries: Seq<LogEntry>) -> Seq<LogEntryView> {
    Seq::new(entries.len(), |i: int| entries[i]@)
}

/// An informational entry.
pub open spec fn info_entry(message: Seq<char>) -> LogEntryView {
    LogEntryView { level: LogLevel::Info, message }
}

/// An error entry.
pub open spec fn error_entry(message: Seq<char>) -> LogEntryView {
    LogEntryView { level: LogLevel::Error, message }
}

/// The log entry of `level` that reads `prefix` followed by `rest`.
pub fn entry(level: LogLevel, prefix: &str, rest: &str) -> (e: LogEntry)
    ensures
        e@ == (LogEntryView { level, message: prefix@ + rest@ }),
{
    let mut message = prefix.to_owned();
    message.append(rest);
    LogEntry { level, message }
}

} // verus!
