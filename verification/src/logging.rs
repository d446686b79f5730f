//! Log lines as values.
//!
//! The shell's only observable behaviour besides the window transitions is
//! the log lines it emits. So that the choice of line can be verified, a
//! line is a plain value: the functions of this crate return `LogEntry`
//! values, and the process hands them to whatever logging sink it set up.

use vstd::prelude::*;

verus! {

/// Severity of a log line. The shell only ever emits informational
/// and warning lines.
#[derive(Clone, Copy, PartialEq, Eq, Structural, Debug)]
pub enum LogLevel {
    Info,
    Warn,
}

/// One log line: a severity and the full message text.
#[derive(Clone, Debug)]
pub struct LogEntry {
    pub level: LogLevel,
    pub message: String,
}

impl LogEntry {
    /// An informational line with the given text.
    pub fn info(message: String) -> (r: LogEntry)
        ensures
            r.level == LogLevel::Info,
            r.message@ == message@,
    {
        LogEntry { level: LogLevel::Info, message }
    }

    /// A warning line with the given text.
    pub fn warn(message: String) -> (r: LogEntry)
        ensures
            r.level == LogLevel::Warn,
            r.message@ == message@,
    {
        LogEntry { level: LogLevel::Warn, message }
    }
}

} // verus!
