//! The two remotely invocable commands.
//!
//! The embedded content layer can invoke two procedures: one closes the
//! invoking window, one reports backend readiness. Both are modelled as
//! functions on plain values; the host runtime resolves the window and
//! performs the actual close, and the process emits the log lines the
//! functions return.

use crate::logging::{LogEntry, LogLevel};
use crate::window::{WindowModel, WindowState};
use vstd::prelude::*;

verus! {

/// The message logged when a close of the window with this label is
/// requested.
pub open spec fn close_request_message(label: Seq<char>) -> Seq<char> {
    "Window close requested: "@ + label
}

/// The message logged when closing the window with this label failed with
/// this error.
pub open spec fn close_failure_message(label: Seq<char>, error: Seq<char>) -> Seq<char> {
    "Failed to close window "@ + label + ": "@ + error
}

/// The readiness probe: reports ready on every invocation, and never
/// fails.
pub fn backend_ready() -> (ready: bool)
    ensures
        ready,
{
    true
}

/// The log line each invocation of the readiness probe emits.
pub fn backend_ready_log() -> (r: LogEntry)
    ensures
        r.level == LogLevel::Info,
        r.message@ == "Backend is ready"@,
{
    LogEntry::info(String::from_str("Backend is ready"))
}

/// The close-window command, applied to the invoking window.
///
/// `close_result` is the runtime's answer to the close request. On success
/// the window transitions to closed; on failure it stays as it was and a
/// warning naming the window and the error is logged — the command never
/// fails itself, and the caller is not informed either way. The request is
/// always logged first, so the command emits one line on success and two
/// on failure.
pub fn close_window(window: &mut WindowModel, close_result: Result<(), String>) -> (logs: Vec<
    LogEntry,
>)
    ensures
        final(window).label@ == old(window).label@,
        final(window).observer_attached == old(window).observer_attached,
        close_result is Ok ==> final(window).state == WindowState::Closed,
        close_result is Err ==> final(window).state == old(window).state,
        logs@.len() == (if close_result is Ok {
            1int
        } else {
            2int
        }),
        logs@[0].level == LogLevel::Info,
        logs@[0].message@ == close_request_message(old(window).label@),
        close_result matches Err(e) ==> logs@[1].level == LogLevel::Warn && logs@[1].message@
            == close_failure_message(old(window).label@, e@),
{
    let mut logs: Vec<LogEntry> = Vec::new();

    let mut request = String::from_str("Window close requested: ");
    request.append(window.label.as_str());
    logs.push(LogEntry::info(request));

    match close_result {
        Ok(()) => {
            window.state = WindowState::Closed;
        },
        Err(error) => {
            let mut failure = String::from_str("Failed to close window ");
            failure.append(window.label.as_str());
            failure.append(": ");
            failure.append(error.as_str());
            logs.push(LogEntry::warn(failure));
        },
    }
    logs
}

} // verus!
