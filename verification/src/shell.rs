//! Bootstrap and run-loop decisions.
//!
//! On startup the shell constructs the host runtime, and during setup it
//! looks up the main window by its fixed label. If the window is there,
//! the lifecycle observer is attached; if not, setup still completes and
//! only warns. Afterwards the blocking run loop delivers window events
//! until the window has closed, at which point it returns control and the
//! process exits normally.

use crate::events::{observe_event, observer_message, WindowEvent};
use crate::logging::{LogEntry, LogLevel};
use crate::window::{WindowModel, WindowState};
use vstd::prelude::*;

verus! {

/// The fixed identifier of the main window.
pub open spec fn main_window_label() -> Seq<char> {
    "main"@
}

/// The warning logged when setup finds no main window.
pub open spec fn setup_warning_message() -> Seq<char> {
    "Main window not found, skipping event handler setup"@
}

/// The shell's state after setup: the main window, if the runtime found
/// one.
pub struct Shell {
    pub main_window: Option<WindowModel>,
}

impl Shell {
    /// Whatever window the shell references carries the fixed main-window
    /// label.
    pub open spec fn wf(self) -> bool {
        self.main_window matches Some(w) ==> w.label@ == main_window_label()
    }

    /// Deliver a window event to the shell.
    ///
    /// The attached observer's log line (if any) comes back, and the
    /// runtime's own bookkeeping is applied: a destroyed window is closed.
    /// With no window — or with the observer never attached — no line is
    /// produced, and the event changes nothing.
    pub fn on_window_event(&mut self, e: &WindowEvent) -> (log: Option<LogEntry>)
        ensures
            final(self).wf() == old(self).wf(),
            old(self).main_window is None ==> final(self).main_window is None && log is None,
            old(self).main_window matches Some(w) ==> {
                &&& match final(self).main_window {
                    Some(v) => {
                        &&& v.label@ == w.label@
                        &&& v.observer_attached == w.observer_attached
                        &&& (*e == WindowEvent::Destroyed ==> v.state == WindowState::Closed)
                        &&& (*e != WindowEvent::Destroyed ==> v.state == w.state)
                    },
                    None => false,
                }
                &&& (w.observer_attached ==> match log {
                    Some(entry) => entry.level == LogLevel::Info && observer_message(*e) == Some(
                        entry.message@,
                    ),
                    None => observer_message(*e) is None,
                })
                &&& (!w.observer_attached ==> log is None)
            },
    {
        match &mut self.main_window {
            Some(window) => {
                let line = if window.observer_attached {
                    observe_event(e)
                } else {
                    None
                };
                if *e == WindowEvent::Destroyed {
                    window.state = WindowState::Closed;
                }
                line
            },
            None => None,
        }
    }

    /// Whether the blocking run loop returns control: it does exactly when
    /// the shell's window has closed, and a normal return carries exit
    /// code 0. While the window is open — or when there never was one —
    /// the loop keeps running.
    pub fn run_loop_exit(&self) -> (r: Option<i32>)
        ensures
            match r {
                Some(code) => code == 0 && (self.main_window matches Some(w) && w.state
                    == WindowState::Closed),
                None => !(self.main_window matches Some(w) && w.state == WindowState::Closed),
            },
    {
        match &self.main_window {
            Some(window) => {
                if window.state == WindowState::Closed {
                    Some(0)
                } else {
                    None
                }
            },
            None => None,
        }
    }
}

/// The log line emitted when the application starts.
pub fn startup_log() -> (r: LogEntry)
    ensures
        r.level == LogLevel::Info,
        r.message@ == "Starting application"@,
{
    LogEntry::info(String::from_str("Starting application"))
}

/// The setup decision, made once the runtime reports whether a window
/// with the main label exists.
///
/// Setup always completes: with a window it attaches the observer and
/// warns of nothing; without one it merely warns and the shell carries
/// on windowless. The function is total — there is no failing outcome.
pub fn setup(window_found: bool) -> (r: (Shell, Vec<LogEntry>))
    ensures
        r.0.wf(),
        window_found ==> {
            &&& r.0.main_window matches Some(w) && w.state == WindowState::Open
                && w.observer_attached
            &&& r.1@.len() == 0
        },
        !window_found ==> {
            &&& r.0.main_window is None
            &&& r.1@.len() == 1 && r.1@[0].level == LogLevel::Warn && r.1@[0].message@
                == setup_warning_message()
        },
{
    let mut logs: Vec<LogEntry> = Vec::new();
    let shell = if window_found {
        Shell {
            main_window: Some(
                WindowModel {
                    label: String::from_str("main"),
                    state: WindowState::Open,
                    observer_attached: true,
                },
            ),
        }
    } else {
        logs.push(
            LogEntry::warn(String::from_str("Main window not found, skipping event handler setup")),
        );
        Shell { main_window: None }
    };
    (shell, logs)
}

} // verus!
