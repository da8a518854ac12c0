//! The interactive move grab.
//!
//! A grab exists exactly while an interactive move is in progress: it is
//! created by an explicit move command while a pointer button is held, and
//! torn down inside the button-release handler when no buttons remain
//! pressed.  While it is active, pointer motion moves the target window
//! instead of driving hit-testing and focus.

use vstd::prelude::*;

use crate::geometry::{Point, SubPoint};

verus! {

/// State captured when an interactive move starts.
#[derive(Clone, Copy, Debug, PartialEq, Eq, Structural)]
pub struct MoveSurfaceGrab {
    /// Pointer location when the grab started.
    pub start_location: SubPoint,
    /// The window being moved.
    pub window: u64,
    /// The window's content location when the grab started.
    pub initial_window_location: Point,
}

impl MoveSurfaceGrab {
    pub open spec fn wf(self) -> bool {
        self.start_location.wf() && self.initial_window_location.wf()
    }

    pub fn new(start_location: SubPoint, window: u64, initial_window_location: Point) -> (g:
        MoveSurfaceGrab)
        requires
            start_location.wf(),
            initial_window_location.wf(),
        ensures
            g == (MoveSurfaceGrab { start_location, window, initial_window_location }),
            g.wf(),
    {
        MoveSurfaceGrab { start_location, window, initial_window_location }
    }
}

} // verus!
