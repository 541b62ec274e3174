//! What the host tells the shell about its window and about the application.

use vstd::prelude::*;

verus! {

/// Something that happened to the window.
#[derive(Clone, Copy, Debug, PartialEq, Eq, Structural)]
pub enum WindowEvent {
    /// The user asked for the window to be closed.
    CloseRequested,
    /// Anything else: a move, a resize, a change of focus.
    Other,
}

/// Something that happened to the application as a whole.
#[derive(Clone, Copy, Debug, PartialEq, Eq, Structural)]
pub enum RunEvent {
    /// The user asked for the application again while it was running, as by a
    /// click on its icon in the dock.
    ReopenRequested,
    /// Anything else.
    Other,
}

} // verus!
