//! Pointer-focus targets: the small closed tagged variant events are
//! dispatched to, either a raw client surface or a managed window.

use vstd::prelude::*;

verus! {

/// Where pointer events are delivered: a raw surface or a window element.
#[derive(Clone, Copy, Debug, PartialEq, Eq, Structural)]
pub enum PointerFocusTarget {
    WlSurface(u64),
    WindowElement(u64),
}

impl PointerFocusTarget {
    /// The target's primary surface.
    pub open spec fn spec_wl_surface(self) -> u64 {
        match self {
            PointerFocusTarget::WlSurface(surface) => surface,
            PointerFocusTarget::WindowElement(window) => window,
        }
    }

    /// The window behind the target, when it is one.
    pub open spec fn spec_window_id(self) -> Option<u64> {
        match self {
            PointerFocusTarget::WlSurface(_) => None,
            PointerFocusTarget::WindowElement(window) => Some(window),
        }
    }

    pub fn wl_surface(&self) -> (r: u64)
        ensures
            r == self.spec_wl_surface(),
    {
        match self {
            PointerFocusTarget::WlSurface(surface) => *surface,
            PointerFocusTarget::WindowElement(window) => *window,
        }
    }

    pub fn window_id(&self) -> (r: Option<u64>)
        ensures
            r == self.spec_window_id(),
    {
        match self {
            PointerFocusTarget::WlSurface(_) => None,
            PointerFocusTarget::WindowElement(window) => Some(*window),
        }
    }

    /// A target for a raw surface.
    pub fn from_surface(surface: u64) -> (r: PointerFocusTarget)
        ensures
            r == PointerFocusTarget::WlSurface(surface),
    {
        PointerFocusTarget::WlSurface(surface)
    }
}

/// The window id behind an optional focus target.
pub open spec fn focus_window_id(t: Option<PointerFocusTarget>) -> Option<u64> {
    match t {
        Some(target) => target.spec_window_id(),
        None => None,
    }
}

} // verus!
