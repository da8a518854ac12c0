//! Protocol-delegation entry points: the mutations an external
//! protocol layer invokes for client requests and surface commits.
//! The core never parses wire messages; it receives plain values.

use vstd::prelude::*;

use crate::geometry::{Point, Rect, Size};
use crate::space::{with_configure_sent, with_focus, WindowElement, WindowState};
use crate::state::WallyState;

verus! {

/// A tracked popup surface with its pending geometry and the
/// initial-configure flag consulted before any configure is sent.
#[derive(Clone, Copy, Debug, PartialEq, Eq, Structural)]
pub struct Popup {
    pub surface: u64,
    pub geometry: Rect,
    pub initial_configure_sent: bool,
}

/// The popup `p` with the initial-configure flag set.
pub open spec fn popup_with_configure_sent(p: Popup) -> Popup {
    Popup { initial_configure_sent: true, ..p }
}

/// What a surface commit asks the protocol layer to send out.
#[derive(Clone, Copy, Debug, PartialEq, Eq, Structural)]
pub enum CommitAction {
    /// Send the initial configure for a toplevel surface.
    ConfigureToplevel(u64),
    /// Send the initial configure for a popup surface.
    ConfigurePopup(u64),
    /// Nothing to send.
    NoAction,
}

/// The rectangle a popup must be positioned inside, relative to its parent
/// toplevel: the output's region translated by the popup's toplevel offset
/// and the parent window's location.
pub fn popup_unconstrain_target(output_geo: Rect, toplevel_coords: Point, window_loc: Point) -> (r:
    Rect)
    requires
        output_geo.wf(),
        toplevel_coords.wf(),
        window_loc.wf(),
    ensures
        r.loc.x == output_geo.loc.x - toplevel_coords.x - window_loc.x,
        r.loc.y == output_geo.loc.y - toplevel_coords.y - window_loc.y,
        r.size == output_geo.size,
{
    Rect {
        loc: Point {
            x: output_geo.loc.x - toplevel_coords.x - window_loc.x,
            y: output_geo.loc.y - toplevel_coords.y - window_loc.y,
        },
        size: output_geo.size,
    }
}

impl WallyState {
    /// The stack position of the popup tracking this surface.
    pub fn popup_position_of(&self, surface: u64) -> (r: Option<usize>)
        ensures
            r matches Some(i) ==> 0 <= i < self.popups@.len() && self.popups@[i as int].surface
                == surface,
            r is None <==> !self.has_popup(surface),
    {
        let mut idx: usize = 0;
        while idx < self.popups.len()
            invariant
                0 <= idx <= self.popups@.len(),
                forall|j: int| 0 <= j < idx ==> self.popups@[j].surface != surface,
            decreases self.popups@.len() - idx,
        {
            if self.popups[idx].surface == surface {
                return Some(idx);
            }
            idx = idx + 1;
        }
        None
    }

    /// A client mapped a new toplevel: wrap it in a window element at the
    /// given initial placement (the caller picks it, randomized or not),
    /// push it to the top of the stack and activate it.
    pub fn new_toplevel(&mut self, surface: u64, client: u64, size: Size, position: Point)
        requires
            old(self).wf(),
            !old(self).space.contains_id(surface),
            position.wf(),
            size.wf(),
        ensures
            final(self).wf(),
            final(self).space.contains_id(surface),
            // the new window sits on top, at the requested position and
            // focused; every other window keeps its place and loses the
            // focus flag
            final(self).space.windows@ =~= old(self).space.windows@.map_values(
                |w: WindowElement| with_focus(w, false),
            ).push(
                (WindowElement {
                    id: surface,
                    client,
                    geometry: (Rect { loc: position, size }),
                    state: (WindowState { is_focused: true }),
                    alive: true,
                    initial_configure_sent: false,
                }),
            ),
            ({
                let ws = final(self).space.windows@;
                &&& ws.len() > 0
                &&& ws[ws.len() - 1].id == surface
                &&& ws[ws.len() - 1].geometry.loc == position
                &&& ws[ws.len() - 1].geometry.size == size
                &&& ws[ws.len() - 1].state.is_focused
            }),
            // everything that is not the space is untouched
            final(self).running == old(self).running,
            final(self).config == old(self).config,
            final(self).pointer == old(self).pointer,
            final(self).pointer_focus == old(self).pointer_focus,
            final(self).keyboard_focus == old(self).keyboard_focus,
            final(self).cursor_status == old(self).cursor_status,
            final(self).monitors == old(self).monitors,
            final(self).popups == old(self).popups,
    {
        let window = WindowElement::new(surface, client, Rect { loc: position, size });
        self.space.map_element(window, position, true);
        proof {
            let base = old(self).space.windows@.map_values(
                |w: crate::space::WindowElement| crate::space::with_focus(w, false),
            );
            let placed = crate::space::with_loc(crate::space::with_focus(window, true), position);
            assert(self.space.windows@ =~= base.push(placed));
            let ws = self.space.windows@;
            assert(ws[ws.len() - 1] == placed);
        }
    }

    /// Track a new popup surface with its pending geometry.  A popup that
    /// is already tracked keeps its entry.
    pub fn new_popup(&mut self, surface: u64, geometry: Rect)
        requires
            old(self).wf(),
            geometry.wf(),
        ensures
            final(self).wf(),
            final(self).has_popup(surface),
            !old(self).has_popup(surface) ==> final(self).popups@ == old(self).popups@.push(
                (Popup { surface, geometry, initial_configure_sent: false }),
            ),
            old(self).has_popup(surface) ==> final(self).popups@ == old(self).popups@,
            final(self).space == old(self).space,
            final(self).running == old(self).running,
            final(self).config == old(self).config,
            final(self).pointer == old(self).pointer,
            final(self).pointer_focus == old(self).pointer_focus,
            final(self).keyboard_focus == old(self).keyboard_focus,
            final(self).cursor_status == old(self).cursor_status,
            final(self).monitors == old(self).monitors,
    {
        let pos = self.popup_position_of(surface);
        if pos.is_none() {
            self.popups.push(Popup { surface, geometry, initial_configure_sent: false });
            proof {
                let ps = self.popups@;
                assert(ps[ps.len() - 1].surface == surface);
                assert forall|i: int, j: int|
                    0 <= i < j < ps.len() implies ps[i].surface != ps[j].surface by {
                    if j < ps.len() - 1 {
                        assert(ps[i] == old(self).popups@[i]);
                        assert(ps[j] == old(self).popups@[j]);
                    } else {
                        assert(ps[i] == old(self).popups@[i]);
                    }
                }
            }
        }
    }

    /// A popup asked to be repositioned: store its new pending geometry.
    /// Returns the token to acknowledge with, when the popup is tracked.
    pub fn reposition_request(&mut self, surface: u64, geometry: Rect, token: u32) -> (r: Option<
        u32,
    >)
        requires
            old(self).wf(),
            geometry.wf(),
        ensures
            final(self).wf(),
            r is Some <==> old(self).has_popup(surface),
            r matches Some(t) ==> t == token,
            !old(self).has_popup(surface) ==> final(self).popups@ == old(self).popups@,
            old(self).has_popup(surface) ==> exists|i: int|
                0 <= i < old(self).popups@.len() && (#[trigger] old(self).popups@[i]).surface
                    == surface && final(self).popups@ == old(self).popups@.update(
                    i,
                    (Popup { geometry, ..old(self).popups@[i] }),
                ),
            final(self).space == old(self).space,
            final(self).running == old(self).running,
            final(self).config == old(self).config,
            final(self).pointer == old(self).pointer,
            final(self).pointer_focus == old(self).pointer_focus,
            final(self).keyboard_focus == old(self).keyboard_focus,
            final(self).cursor_status == old(self).cursor_status,
            final(self).monitors == old(self).monitors,
    {
        let pos = self.popup_position_of(surface);
        match pos {
            None => None,
            Some(i) => {
                let mut p = self.popups[i];
                p.geometry = geometry;
                self.popups.set(i, p);
                proof {
                    let ps = self.popups@;
                    assert forall|a: int, b: int|
                        0 <= a < b < ps.len() implies ps[a].surface != ps[b].surface by {
                        assert(old(self).popups@[a].surface != old(self).popups@[b].surface);
                        if a != i as int {
                            assert(ps[a] == old(self).popups@[a]);
                        }
                        if b != i as int {
                            assert(ps[b] == old(self).popups@[b]);
                        }
                    }
                }
                Some(token)
            },
        }
    }

    /// The window wrapping this surface, if any.
    pub fn window_for_surface(&self, surface: u64) -> (r: Option<WindowElement>)
        requires
            self.wf(),
        ensures
            r is Some <==> self.space.contains_id(surface),
            r matches Some(w) ==> exists|i: int|
                0 <= i < self.space.windows@.len() && #[trigger] self.space.windows@[i] == w
                    && w.id == surface,
    {
        self.space.find_window(surface)
    }

    /// Handle a surface commit: consult the initial-configure flag and send
    /// the initial configure at most once, for the matching toplevel or
    /// popup.  A repeated commit of a configured surface sends nothing.
    pub fn handle_commit(&mut self, surface: u64) -> (r: CommitAction)
        requires
            old(self).wf(),
        ensures
            final(self).wf(),
            // a toplevel commit before its initial configure sends it, once
            ({
                let space = old(self).space;
                if space.contains_id(surface) {
                    let w = space.windows@[space.index_of_id(surface)];
                    if !w.initial_configure_sent {
                        r == CommitAction::ConfigureToplevel(surface) && final(self).space.windows@
                            == space.windows@.update(
                            space.index_of_id(surface),
                            with_configure_sent(w),
                        ) && final(self).popups@ == old(self).popups@
                    } else {
                        r == CommitAction::NoAction && final(self).space == space && final(self).popups@ == old(self).popups@
                    }
                } else if old(self).has_popup(surface) {
                    let i = old(self).popup_index_of(surface);
                    let p = old(self).popups@[i];
                    if !p.initial_configure_sent {
                        r == CommitAction::ConfigurePopup(surface) && final(self).popups@ == old(
                            self,
                        ).popups@.update(i, popup_with_configure_sent(p)) && final(self).space
                            == space
                    } else {
                        r == CommitAction::NoAction && final(self).space == space && final(self).popups@ == old(self).popups@
                    }
                } else {
                    r == CommitAction::NoAction && final(self).space == space && final(self).popups@ == old(self).popups@
                }
            }),
            final(self).running == old(self).running,
            final(self).config == old(self).config,
            final(self).pointer == old(self).pointer,
            final(self).pointer_focus == old(self).pointer_focus,
            final(self).keyboard_focus == old(self).keyboard_focus,
            final(self).cursor_status == old(self).cursor_status,
            final(self).monitors == old(self).monitors,
    {
        let wpos = self.space.position_of(surface);
        if let Some(i) = wpos {
            proof {
                let oi = old(self).space.index_of_id(surface);
                assert(0 <= oi < old(self).space.windows@.len() && old(self).space.windows@[
                    oi].id == surface);
                assert(i == oi);
            }
            if !self.space.windows[i].initial_configure_sent {
                self.space.mark_initial_configure_sent(surface);
                return CommitAction::ConfigureToplevel(surface);
            }
            return CommitAction::NoAction;
        }
        let ppos = self.popup_position_of(surface);
        if let Some(i) = ppos {
            proof {
                let oi = old(self).popup_index_of(surface);
                assert(0 <= oi < old(self).popups@.len() && old(self).popups@[oi].surface
                    == surface);
                assert(i == oi);
            }
            if !self.popups[i].initial_configure_sent {
                let mut p = self.popups[i];
                p.initial_configure_sent = true;
                self.popups.set(i, p);
                proof {
                    let ps = self.popups@;
                    assert forall|a: int, b: int|
                        0 <= a < b < ps.len() implies ps[a].surface != ps[b].surface by {
                        assert(old(self).popups@[a].surface != old(self).popups@[b].surface);
                        if a != i as int {
                            assert(ps[a] == old(self).popups@[a]);
                        }
                        if b != i as int {
                            assert(ps[b] == old(self).popups@[b]);
                        }
                    }
                }
                return CommitAction::ConfigurePopup(surface);
            }
            return CommitAction::NoAction;
        }
        CommitAction::NoAction
    }
}

} // verus!
