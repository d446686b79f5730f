//! Decision logic of a minimal desktop-application shell.
//!
//! The shell boots a native window host, exposes two remotely invocable
//! commands (close the invoking window, report backend readiness) and
//! observes a handful of window lifecycle events. Everything the shell
//! decides — which log lines to emit, how the window state changes, what
//! setup does when the main window is missing — is modelled and verified
//! here as functions from plain values to plain values. The surrounding
//! process (the GUI runtime, the logging sink, the blocking run loop)
//! performs the effects these functions prescribe.

pub mod commands;
pub mod events;
pub mod logging;
pub mod shell;
pub mod window;
