//! What the host is asked to do after a change of scroll state.
//!
//! The library decides; the host acts. Every operation that has consequences
//! outside the scroll state returns them as a list of effects, in the order
//! in which they are to be carried out.

use vstd::prelude::*;
use crate::geometry::Vector2;

verus! {

/// One action for the host to perform.
#[derive(Clone, Copy, Debug, PartialEq, Eq)]
pub enum Effect {
    /// Dismiss the hover popover.
    HideHover,
    /// Tell the observers of the view that its scroll position has changed.
    /// `local` is false where the change came from a remote collaborator.
    ScrollPositionChanged { local: bool },
    /// Draw the view again.
    Redraw,
    /// Start the one-shot timer that hides the scrollbar: after `delay`
    /// nanoseconds, report `token` as fired. A timer started earlier is
    /// dropped.
    StartHideTimer { token: u64, delay: u64 },
    /// Drop the timer that hides the scrollbar, if one is running.
    CancelHideTimer,
    /// Store the scroll position of this view for the workspace, in the
    /// background; a failure is logged and not reported back.
    SaveScrollPosition { workspace_id: i64, saved: SavedScroll },
}

/// A scroll position as it is stored: the buffer row at the top of the view
/// and the offset from it.
#[derive(Clone, Copy, Debug, PartialEq, Eq, Structural)]
pub struct SavedScroll {
    pub top_row: u32,
    pub offset: Vector2,
}

} // verus!
