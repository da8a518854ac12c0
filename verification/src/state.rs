//! The compositor core state: the spatial model, pointer and keyboard
//! focus, the active grab, the cursor visual and the monitors — everything
//! one event-loop tick reads and mutates.

use vstd::prelude::*;

use crate::config::Config;
use crate::focus::PointerFocusTarget;
use crate::geometry::{spec_round_sub, Point, SubPoint, SUB_UNIT};
use crate::grabs::MoveSurfaceGrab;
use crate::handlers::Popup;
use crate::keybind::Action;
use crate::monitor::Monitor;
use crate::render::CursorImageStatus;
use crate::space::{spec_element_under, Space};

verus! {

/// The pointer's clamped location, the buttons currently held, and the
/// active move grab, if an interactive move is in progress.
pub struct PointerState {
    pub location: SubPoint,
    pub pressed_buttons: Vec<u32>,
    pub grab: Option<MoveSurfaceGrab>,
}

impl PointerState {
    pub open spec fn wf(self) -> bool {
        &&& self.location.wf()
        &&& forall|i: int, j: int|
            0 <= i < j < self.pressed_buttons@.len() ==> self.pressed_buttons@[i]
                != self.pressed_buttons@[j]
        &&& self.grab matches Some(g) ==> g.wf()
    }

    pub open spec fn is_grabbed(self) -> bool {
        self.grab is Some
    }
}

/// The state one event-loop tick works on.
pub struct WallyState {
    /// Cleared cooperatively to stop the run loop at the next iteration.
    pub running: bool,
    /// Read-only after startup.
    pub config: Config,
    pub space: Space,
    pub pointer: PointerState,
    /// The target pointer events are delivered to.
    pub pointer_focus: Option<PointerFocusTarget>,
    /// The surface holding keyboard focus.
    pub keyboard_focus: Option<u64>,
    pub cursor_status: CursorImageStatus,
    pub monitors: Vec<Monitor>,
    pub popups: Vec<Popup>,
}

impl WallyState {
    pub open spec fn wf(self) -> bool {
        &&& self.config.wf()
        &&& self.space.wf()
        &&& self.pointer.wf()
        &&& forall|i: int, j: int|
            0 <= i < j < self.popups@.len() ==> self.popups@[i].surface != self.popups@[j].surface
        &&& forall|i: int| 0 <= i < self.popups@.len() ==> (#[trigger] self.popups@[i]).geometry.wf()
        &&& (self.cursor_status matches CursorImageStatus::Surface { hotspot, .. }
            ==> hotspot.wf())
    }

    pub open spec fn has_popup(self, surface: u64) -> bool {
        exists|i: int| 0 <= i < self.popups@.len() && self.popups@[i].surface == surface
    }

    /// The index of the popup tracking this surface (meaningful when
    /// `has_popup` holds; unique under `wf`).
    pub open spec fn popup_index_of(self, surface: u64) -> int {
        choose|i: int| 0 <= i < self.popups@.len() && self.popups@[i].surface == surface
    }

    /// A fresh core: running, with an empty space, the pointer at the
    /// origin with no grab and no buttons held, no focus anywhere, and the
    /// named system cursor.
    pub fn new(config: Config) -> (s: WallyState)
        requires
            config.wf(),
        ensures
            s.wf(),
            s.running,
            s.config == config,
            s.space.windows@.len() == 0,
            s.space.outputs@.len() == 0,
            s.pointer.location == (SubPoint { x: 0, y: 0 }),
            s.pointer.pressed_buttons@.len() == 0,
            s.pointer.grab is None,
            s.pointer_focus is None,
            s.keyboard_focus is None,
            s.cursor_status == CursorImageStatus::Named,
            s.monitors@.len() == 0,
            s.popups@.len() == 0,
    {
        WallyState {
            running: true,
            config,
            space: Space::new(),
            pointer: PointerState {
                location: SubPoint { x: 0, y: 0 },
                pressed_buttons: Vec::new(),
                grab: None,
            },
            pointer_focus: None,
            keyboard_focus: None,
            cursor_status: CursorImageStatus::Named,
            monitors: Vec::new(),
            popups: Vec::new(),
        }
    }

    pub fn add_monitor(&mut self, monitor: Monitor)
        requires
            old(self).wf(),
        ensures
            final(self).wf(),
            final(self).monitors@ == old(self).monitors@.push(monitor),
            final(self).running == old(self).running,
            final(self).config == old(self).config,
            final(self).space == old(self).space,
            final(self).pointer == old(self).pointer,
            final(self).pointer_focus == old(self).pointer_focus,
            final(self).keyboard_focus == old(self).keyboard_focus,
            final(self).cursor_status == old(self).cursor_status,
            final(self).popups@ == old(self).popups@,
    {
        self.monitors.push(monitor);
    }

    /// Dispatch a bound action.  Quit clears the running flag, so the
    /// run loop stops cooperatively at the next iteration boundary; a
    /// spawn action yields the command the process boundary must run;
    /// the remaining actions are currently no-ops.
    pub fn handle_action(&mut self, action: Action) -> (r: Option<String>)
        requires
            old(self).wf(),
        ensures
            final(self).wf(),
            final(self).running == (if action == Action::Quit {
                false
            } else {
                old(self).running
            }),
            final(self).config == old(self).config,
            final(self).space == old(self).space,
            final(self).pointer == old(self).pointer,
            final(self).pointer_focus == old(self).pointer_focus,
            final(self).keyboard_focus == old(self).keyboard_focus,
            final(self).cursor_status == old(self).cursor_status,
            final(self).monitors == old(self).monitors,
            final(self).popups@ == old(self).popups@,
            action matches Action::Spawn(command) ==> r == Some(command),
            !(action matches Action::Spawn(_)) ==> r is None,
    {
        match action {
            Action::Spawn(command) => Some(command),
            Action::Quit => {
                self.running = false;
                None
            },
            _ => None,
        }
    }

    /// Record a failed event-loop dispatch.  A misbehaving multiplexer
    /// cannot be trusted incrementally, so the failure is fatal rather
    /// than retried: the running flag is cleared and the loop exits at
    /// the next iteration boundary.
    pub fn record_dispatch_failure(&mut self)
        requires
            old(self).wf(),
        ensures
            final(self).wf(),
            !final(self).running,
            final(self).config == old(self).config,
            final(self).space == old(self).space,
            final(self).pointer == old(self).pointer,
            final(self).pointer_focus == old(self).pointer_focus,
            final(self).keyboard_focus == old(self).keyboard_focus,
            final(self).cursor_status == old(self).cursor_status,
            final(self).monitors == old(self).monitors,
            final(self).popups@ == old(self).popups@,
    {
        self.running = false;
    }

    /// The focus target under a position: the topmost window whose
    /// border-inflated box contains it, with that window's location.
    pub fn surface_under(&self, pos: SubPoint) -> (r: Option<(PointerFocusTarget, Point)>)
        requires
            self.wf(),
        ensures
            ({
                let under = spec_element_under(
                    self.space.windows@,
                    pos,
                    self.config.border_thickness,
                );
                match under {
                    None => r is None,
                    Some((id, loc)) => r == Some((PointerFocusTarget::WindowElement(id), loc)),
                }
            }),
    {
        match self.space.element_under(pos, self.config.border_thickness) {
            None => None,
            Some((id, loc)) => Some((PointerFocusTarget::WindowElement(id), loc)),
        }
    }

    /// Resolve the cursor for rendering: whether a separately drawn cursor
    /// is visible, and the physical pixel position of the cursor visual.
    ///
    /// A client cursor surface that died falls back to the named cursor.
    /// A live client surface is drawn at the pointer position minus its
    /// declared hotspot; it replaces the separately drawn cursor.
    pub fn get_cursor_data(&mut self, scale: i64) -> (r: (bool, Point))
        requires
            old(self).wf(),
            1 <= scale <= 64,
        ensures
            final(self).wf(),
            // a dead cursor surface resets to the named cursor
            ({
                let reset = old(self).cursor_status matches CursorImageStatus::Surface {
                    alive: false,
                    ..
                };
                if reset {
                    final(self).cursor_status == CursorImageStatus::Named
                } else {
                    final(self).cursor_status == old(self).cursor_status
                }
            }),
            // the separately drawn cursor is visible unless a live client
            // surface replaces it
            r.0 == !(final(self).cursor_status is Surface),
            // physical location: pointer minus hotspot, scaled and rounded
            ({
                let hot = match final(self).cursor_status {
                    CursorImageStatus::Surface { hotspot, .. } => hotspot,
                    _ => Point { x: 0, y: 0 },
                };
                &&& r.1.x == spec_round_sub(
                    (old(self).pointer.location.x - hot.x * SUB_UNIT) * scale,
                )
                &&& r.1.y == spec_round_sub(
                    (old(self).pointer.location.y - hot.y * SUB_UNIT) * scale,
                )
            }),
            final(self).running == old(self).running,
            final(self).config == old(self).config,
            final(self).space == old(self).space,
            final(self).pointer == old(self).pointer,
            final(self).pointer_focus == old(self).pointer_focus,
            final(self).keyboard_focus == old(self).keyboard_focus,
            final(self).monitors == old(self).monitors,
            final(self).popups@ == old(self).popups@,
    {
        let needs_reset = match self.cursor_status {
            CursorImageStatus::Surface { alive, .. } => !alive,
            _ => false,
        };
        if needs_reset {
            self.cursor_status = CursorImageStatus::Named;
        }
        let (hx, hy): (i64, i64) = match self.cursor_status {
            CursorImageStatus::Surface { hotspot, .. } => (hotspot.x, hotspot.y),
            _ => (0, 0),
        };
        let visible = !matches!(self.cursor_status, CursorImageStatus::Surface { .. });
        let vx = self.pointer.location.x - hx * SUB_UNIT;
        let vy = self.pointer.location.y - hy * SUB_UNIT;
        proof {
            assert(-0x80_0000_0000 <= vx <= 0x80_0000_0000);
            assert(-0x80_0000_0000 <= vy <= 0x80_0000_0000);
            assert(-0x4000_0000_0000_0000 <= vx * scale <= 0x4000_0000_0000_0000)
                by (nonlinear_arith)
                requires
                    -0x80_0000_0000 <= vx <= 0x80_0000_0000,
                    1 <= scale <= 64,
            ;
            assert(-0x4000_0000_0000_0000 <= vy * scale <= 0x4000_0000_0000_0000)
                by (nonlinear_arith)
                requires
                    -0x80_0000_0000 <= vy <= 0x80_0000_0000,
                    1 <= scale <= 64,
            ;
        }
        let px = crate::geometry::round_sub(vx * scale);
        let py = crate::geometry::round_sub(vy * scale);
        (visible, Point { x: px, y: py })
    }
}

} // verus!
