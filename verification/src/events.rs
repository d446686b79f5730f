//! The window event observer.
//!
//! The observer attached to the main window reacts to exactly three event
//! categories — close-requested, destroyed, and focus-changed — by emitting
//! one informational log line each. Every other category is ignored. The
//! observer mutates no state: it is a pure function from the event to an
//! optional log line, and the process emits whatever line comes back.

use crate::logging::{LogEntry, LogLevel};
use vstd::prelude::*;

verus! {

/// A window lifecycle event as the observer distinguishes them. The host
/// runtime delivers further categories; every one the observer ignores is
/// `Other`.
#[derive(Clone, Copy, PartialEq, Eq, Structural, Debug)]
pub enum WindowEvent {
    /// The user (or the runtime) asked the window to close.
    CloseRequested,
    /// The window has been torn down by the runtime.
    Destroyed,
    /// The window gained or lost focus; the payload is the new focus state.
    FocusChanged(bool),
    /// Any event category the observer does not react to.
    Other,
}

/// The message the observer logs for an event, or `None` for an event it
/// ignores.
pub open spec fn observer_message(e: WindowEvent) -> Option<Seq<char>> {
    match e {
        WindowEvent::CloseRequested => Some("Window close requested"@),
        WindowEvent::Destroyed => Some("Window destroyed"@),
        WindowEvent::FocusChanged(focused) => Some(
            if focused {
                "Window focus changed: true"@
            } else {
                "Window focus changed: false"@
            },
        ),
        WindowEvent::Other => None,
    }
}

/// The observer itself: exactly one informational line for each of the
/// three observed categories, nothing for any other, and no state change
/// (the function takes the event alone and returns the line).
pub fn observe_event(e: &WindowEvent) -> (r: Option<LogEntry>)
    ensures
        match r {
            Some(entry) => entry.level == LogLevel::Info && observer_message(*e) == Some(
                entry.message@,
            ),
            None => observer_message(*e) is None,
        },
{
    match e {
        WindowEvent::CloseRequested => Some(
            LogEntry::info(String::from_str("Window close requested")),
        ),
        WindowEvent::Destroyed => Some(LogEntry::info(String::from_str("Window destroyed"))),
        WindowEvent::FocusChanged(focused) => {
            if *focused {
                Some(LogEntry::info(String::from_str("Window focus changed: true")))
            } else {
                Some(LogEntry::info(String::from_str("Window focus changed: false")))
            }
        },
        WindowEvent::Other => None,
    }
}

} // verus!
