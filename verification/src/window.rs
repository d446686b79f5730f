//! The application's view of its one main window.
//!
//! The window itself is owned by the host runtime; the application only
//! refers to it. What the application's decisions depend on is captured
//! here as plain data: the window's label, whether it is still open, and
//! whether the lifecycle observer has been attached to it.

use vstd::prelude::*;

verus! {

/// Whether the window is still open or has closed.
#[derive(Clone, Copy, PartialEq, Eq, Structural, Debug)]
pub enum WindowState {
    Open,
    Closed,
}

/// What the shell knows of the main window: its label (the identifier the
/// runtime resolves it by), whether it is open, and whether the lifecycle
/// observer was attached during setup.
#[derive(Clone, Debug)]
pub struct WindowModel {
    pub label: String,
    pub state: WindowState,
    pub observer_attached: bool,
}

} // verus!
