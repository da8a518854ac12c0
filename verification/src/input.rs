//! The input router: the per-event-kind state machine turning raw input
//! into focus transitions, keybind actions, window moves, or events
//! forwarded to clients.
//!
//! Each handler mutates the core state and returns the ordered list of
//! effects the backend boundary must perform (events to deliver to
//! clients, commands to spawn).  The router itself performs no I/O.

use vstd::prelude::*;

use crate::focus::{focus_window_id, PointerFocusTarget};
use crate::geometry::{spec_clamp, spec_round_sub, Point, SubPoint, COORD_LIMIT, SUB_LIMIT, SUB_UNIT};
use crate::grabs::MoveSurfaceGrab;
use crate::keybind::{table_has_bind, Action, Keybind, KeyModifiers};
use crate::space::{
    move_to_top_result, raise_activate_result, spec_element_under, total_width, with_focus, Output,
    WindowElement,
};
use crate::state::{PointerState, WallyState};

verus! {

/// Where a scroll event originated.
#[derive(Clone, Copy, Debug, PartialEq, Eq, Structural)]
pub enum AxisSource {
    Wheel,
    Finger,
    Continuous,
    WheelTilt,
}

/// One batch of scroll state delivered to the focused client: per-axis
/// continuous amounts (sub-pixel units), the raw discrete values, and
/// explicit stops for ended finger gestures.
#[derive(Clone, Copy, Debug, PartialEq, Eq, Structural)]
pub struct AxisFrame {
    pub source: AxisSource,
    pub time: u32,
    /// Continuous horizontal amount, when it is nonzero.
    pub horizontal: Option<i64>,
    pub vertical: Option<i64>,
    /// The raw discrete value, when the event carried one and the amount
    /// is nonzero.
    pub horizontal_v120: Option<i64>,
    pub vertical_v120: Option<i64>,
    pub horizontal_stop: bool,
    pub vertical_stop: bool,
}

/// A raw input event, as the backend boundary hands it to the router.
#[derive(Clone, Copy, Debug, PartialEq, Eq, Structural)]
pub enum InputEvent {
    Keyboard { pressed: bool, modifier_bits: u32, keysym: u32, time: u32 },
    PointerMotion { delta: SubPoint, delta_unaccel: SubPoint, time: u32 },
    PointerMotionAbsolute { position: SubPoint, time: u32 },
    PointerButton { button: u32, pressed: bool, time: u32 },
    PointerAxis {
        source: AxisSource,
        horizontal: Option<i64>,
        vertical: Option<i64>,
        horizontal_v120: Option<i64>,
        vertical_v120: Option<i64>,
        time: u32,
    },
}

/// What the backend boundary must do after an event was routed.
#[derive(Debug, PartialEq, Eq)]
pub enum Effect {
    /// Run a bound spawn command.
    Spawn(String),
    /// Deliver a key to the keyboard focus.
    ForwardKey { keysym: u32, pressed: bool, time: u32 },
    /// Deliver relative motion to the current pointer focus, with both
    /// the accelerated and the raw (unaccelerated) delta, as pointer-lock
    /// clients need the latter.
    RelativeMotion {
        target: Option<PointerFocusTarget>,
        delta: SubPoint,
        delta_unaccel: SubPoint,
        time: u32,
    },
    /// The pointer left a target.
    PointerLeave { target: PointerFocusTarget },
    /// The pointer entered a target.
    PointerEnter { target: PointerFocusTarget, location: SubPoint },
    /// Deliver pointer motion.
    Motion { target: Option<PointerFocusTarget>, location: SubPoint, time: u32 },
    /// Deliver a button event to the current pointer focus.
    Button { button: u32, pressed: bool, time: u32 },
    /// Deliver a scroll frame to the current pointer focus.
    Axis(AxisFrame),
    /// Close the event batch.
    Frame,
    /// Ask every mapped window to re-send its configuration.
    SendPendingConfigureAll,
}

/// The continuous scroll amount in sub-pixel units: the native continuous
/// value when the event carries one, otherwise the discrete "120 units per
/// notch" value normalised at 15 pixels per notch (so each v120 unit is
/// worth `15 * SUB_UNIT / 120 = 32` sub-pixel units).
pub open spec fn spec_axis_amount(native: Option<i64>, v120: Option<i64>) -> int {
    match native {
        Some(amount) => amount as int,
        None => match v120 {
            Some(discrete) => discrete * 32,
            None => 0,
        },
    }
}

pub fn axis_amount(native: Option<i64>, v120: Option<i64>) -> (r: i64)
    requires
        v120 matches Some(d) ==> -0x1_0000_0000 <= d <= 0x1_0000_0000,
    ensures
        r == spec_axis_amount(native, v120),
{
    match native {
        Some(amount) => amount,
        None => match v120 {
            Some(discrete) => discrete * 32,
            None => 0,
        },
    }
}

/// A discrete wheel step reported as 120 "v120" units, with no native
/// continuous value, normalises to a continuous amount of exactly 15
/// logical pixels.
pub proof fn lemma_scroll_normalization()
    ensures
        spec_axis_amount(None, Some(120)) == 15 * SUB_UNIT,
{
}

/// The height bound for vertical clamping: the height of the first output
/// whose region contains the column `px` at the top row.
pub open spec fn spec_first_height(outs: Seq<Output>, px: i64) -> Option<int>
    decreases outs.len(),
{
    if outs.len() == 0 {
        None
    } else if outs[0].geometry.spec_contains_pt(Point { x: px, y: 0 }) {
        Some(outs[0].geometry.size.h as int)
    } else {
        spec_first_height(outs.drop_first(), px)
    }
}

/// Coordinate clamping.  With no outputs the position passes through.
/// Otherwise `x` is clamped into `[0, W]` for the total width `W` of all
/// outputs; `y` is clamped into `[0, H]` for the height `H` of the output
/// whose horizontal extent contains the clamped `x`, or passes through
/// unclamped if no output does.
pub open spec fn spec_clamp_coords(outs: Seq<Output>, pos: SubPoint) -> SubPoint {
    if outs.len() == 0 {
        pos
    } else {
        let cx = spec_clamp(pos.x as int, 0, total_width(outs) * (SUB_UNIT as int));
        let px = (cx / (SUB_UNIT as int)) as i64;
        match spec_first_height(outs, px) {
            None => SubPoint { x: cx as i64, y: pos.y },
            Some(h) => SubPoint {
                x: cx as i64,
                y: spec_clamp(pos.y as int, 0, h * (SUB_UNIT as int)) as i64,
            },
        }
    }
}

/// After clamping with at least one output mapped, the pointer's column
/// lies within the span of the outputs.
pub proof fn lemma_clamp_coords_bounds(outs: Seq<Output>, pos: SubPoint)
    requires
        outs.len() > 0,
        0 <= total_width(outs) <= COORD_LIMIT as int,
    ensures
        0 <= spec_clamp_coords(outs, pos).x <= total_width(outs) * (SUB_UNIT as int),
{
}

/// A position already inside the outputs is left unchanged by clamping.
pub proof fn lemma_clamp_coords_inside(outs: Seq<Output>, pos: SubPoint)
    requires
        outs.len() > 0,
        0 <= pos.x <= total_width(outs) * (SUB_UNIT as int),
        ({
            let px = ((pos.x as int) / (SUB_UNIT as int)) as i64;
            spec_first_height(outs, px) matches Some(h) && 0 <= pos.y <= h * (SUB_UNIT as int)
        }),
    ensures
        spec_clamp_coords(outs, pos) == pos,
{
}

proof fn lemma_first_height_at(outs: Seq<Output>, px: i64, i: int)
    requires
        0 <= i < outs.len(),
        outs[i].geometry.spec_contains_pt(Point { x: px, y: 0 }),
        forall|j: int|
            0 <= j < i ==> !(#[trigger] outs[j]).geometry.spec_contains_pt(Point { x: px, y: 0 }),
    ensures
        spec_first_height(outs, px) == Some(outs[i].geometry.size.h as int),
    decreases i,
{
    if i > 0 {
        let rest = outs.drop_first();
        assert(forall|j: int| 0 <= j < rest.len() ==> rest[j] == outs[j + 1]);
        lemma_first_height_at(rest, px, i - 1);
    }
}

proof fn lemma_first_height_none(outs: Seq<Output>, px: i64)
    requires
        forall|j: int|
            0 <= j < outs.len() ==> !(#[trigger] outs[j]).geometry.spec_contains_pt(
                Point { x: px, y: 0 },
            ),
    ensures
        spec_first_height(outs, px) is None,
    decreases outs.len(),
{
    if outs.len() > 0 {
        let rest = outs.drop_first();
        assert(forall|j: int| 0 <= j < rest.len() ==> rest[j] == outs[j + 1]);
        lemma_first_height_none(rest, px);
    }
}

impl PointerState {
    pub open spec fn has_button(self, button: u32) -> bool {
        exists|i: int|
            0 <= i < self.pressed_buttons@.len() && self.pressed_buttons@[i] == button
    }

    /// The index of a held button (meaningful when `has_button` holds).
    pub open spec fn button_index(self, button: u32) -> int {
        choose|i: int|
            0 <= i < self.pressed_buttons@.len() && self.pressed_buttons@[i] == button
    }

    fn position_of_button(&self, button: u32) -> (r: Option<usize>)
        ensures
            r matches Some(i) ==> 0 <= i < self.pressed_buttons@.len()
                && self.pressed_buttons@[i as int] == button,
            r is None <==> !self.has_button(button),
    {
        let mut idx: usize = 0;
        while idx < self.pressed_buttons.len()
            invariant
                0 <= idx <= self.pressed_buttons@.len(),
                forall|j: int| 0 <= j < idx ==> self.pressed_buttons@[j] != button,
            decreases self.pressed_buttons@.len() - idx,
        {
            if self.pressed_buttons[idx] == button {
                return Some(idx);
            }
            idx = idx + 1;
        }
        None
    }

    /// Record a button press.  A button already held is not recorded twice.
    pub fn press_button(&mut self, button: u32)
        requires
            old(self).wf(),
        ensures
            final(self).wf(),
            final(self).location == old(self).location,
            final(self).grab == old(self).grab,
            final(self).has_button(button),
            old(self).has_button(button) ==> final(self).pressed_buttons@ == old(self).pressed_buttons@,
            !old(self).has_button(button) ==> final(self).pressed_buttons@ == old(self).pressed_buttons@.push(button),
    {
        let pos = self.position_of_button(button);
        if pos.is_none() {
            self.pressed_buttons.push(button);
            proof {
                let bs = self.pressed_buttons@;
                assert(bs[bs.len() - 1] == button);
                assert forall|i: int, j: int| 0 <= i < j < bs.len() implies bs[i] != bs[j] by {
                    if j < bs.len() - 1 {
                        assert(bs[i] == old(self).pressed_buttons@[i]);
                        assert(bs[j] == old(self).pressed_buttons@[j]);
                    } else {
                        assert(bs[i] == old(self).pressed_buttons@[i]);
                    }
                }
            }
        }
    }

    /// Record a button release.
    pub fn release_button(&mut self, button: u32)
        requires
            old(self).wf(),
        ensures
            final(self).wf(),
            final(self).location == old(self).location,
            final(self).grab == old(self).grab,
            !final(self).has_button(button),
            !old(self).has_button(button) ==> final(self).pressed_buttons@ == old(self).pressed_buttons@,
            old(self).has_button(button) ==> final(self).pressed_buttons@ == old(self).pressed_buttons@.remove(old(self).button_index(button)),
    {
        let pos = self.position_of_button(button);
        if let Some(i) = pos {
            proof {
                let oi = old(self).button_index(button);
                assert(0 <= oi < old(self).pressed_buttons@.len() && old(self).pressed_buttons@[
                    oi] == button);
                assert(i == oi);
            }
            self.pressed_buttons.remove(i);
            proof {
                let bs = self.pressed_buttons@;
                let obs = old(self).pressed_buttons@;
                assert forall|k: int| 0 <= k < bs.len() implies bs[k] != button by {
                    if k < i as int {
                        assert(bs[k] == obs[k]);
                    } else {
                        assert(bs[k] == obs[k + 1]);
                    }
                }
                assert forall|a: int, b: int| 0 <= a < b < bs.len() implies bs[a] != bs[b] by {
                    let oa = if a < i as int {
                        a
                    } else {
                        a + 1
                    };
                    let ob = if b < i as int {
                        b
                    } else {
                        b + 1
                    };
                    assert(bs[a] == obs[oa]);
                    assert(bs[b] == obs[ob]);
                }
            }
        }
    }
}

/// The effects a pointer-focus leave produces: the leave event, then the
/// request that every window re-send its configuration.
pub open spec fn leave_effects(t: Option<PointerFocusTarget>) -> Seq<Effect> {
    match t {
        Some(target) => seq![Effect::PointerLeave { target }, Effect::SendPendingConfigureAll],
        None => Seq::empty(),
    }
}

/// The effects a pointer-focus enter produces.
pub open spec fn enter_effects(t: Option<PointerFocusTarget>, location: SubPoint) -> Seq<Effect> {
    match t {
        Some(target) => seq![
            Effect::PointerEnter { target, location },
            Effect::SendPendingConfigureAll,
        ],
        None => Seq::empty(),
    }
}

/// The focus flags after the pointer crossed from the window `from` to the
/// window `to`: the entered window's flag is set, the left window's flag
/// cleared, everything else untouched.
pub open spec fn focus_flags(ws: Seq<WindowElement>, from: Option<u64>, to: Option<u64>) -> Seq<
    WindowElement,
> {
    ws.map(
        |i: int, w: WindowElement|
            if to == Some(w.id) {
                with_focus(w, true)
            } else if from == Some(w.id) {
                with_focus(w, false)
            } else {
                w
            },
    )
}

/// Where a grab motion puts the window: its initial location plus the
/// pointer delta since the grab started, rounded to the nearest pixel and
/// saturated at the model's working range.
pub open spec fn grab_target(g: MoveSurfaceGrab, c: SubPoint) -> Point {
    Point {
        x: spec_clamp(
            spec_round_sub(g.initial_window_location.x * SUB_UNIT + (c.x - g.start_location.x)),
            -(COORD_LIMIT as int),
            COORD_LIMIT as int,
        ) as i64,
        y: spec_clamp(
            spec_round_sub(g.initial_window_location.y * SUB_UNIT + (c.y - g.start_location.y)),
            -(COORD_LIMIT as int),
            COORD_LIMIT as int,
        ) as i64,
    }
}

/// The focus target a hit-test result selects.
pub open spec fn under_focus(under: Option<(u64, Point)>) -> Option<PointerFocusTarget> {
    match under {
        Some((id, _)) => Some(PointerFocusTarget::WindowElement(id)),
        None => None,
    }
}

/// Structural equality of two optional focus targets.
fn option_target_eq(a: &Option<PointerFocusTarget>, b: &Option<PointerFocusTarget>) -> (r: bool)
    ensures
        r == (a == b),
{
    match (a, b) {
        (None, None) => true,
        (Some(PointerFocusTarget::WlSurface(s1)), Some(PointerFocusTarget::WlSurface(s2))) => s1
            == s2,
        (
            Some(PointerFocusTarget::WindowElement(w1)),
            Some(PointerFocusTarget::WindowElement(w2)),
        ) => w1 == w2,
        _ => false,
    }
}


/// The window stack after a motion event processed from state `s` with the
/// raw position `raw`.
pub open spec fn motion_windows(s: WallyState, raw: SubPoint) -> Seq<WindowElement> {
    let c = spec_clamp_coords(s.space.outputs@, raw);
    match s.pointer.grab {
        Some(g) => if s.space.contains_id(g.window) {
            move_to_top_result(s.space.windows@, s.space.index_of_id(g.window), grab_target(g, c))
        } else {
            s.space.windows@
        },
        None => {
            let new_focus = under_focus(
                spec_element_under(s.space.windows@, c, s.config.border_thickness),
            );
            if new_focus == s.pointer_focus {
                s.space.windows@
            } else {
                focus_flags(
                    s.space.windows@,
                    focus_window_id(s.pointer_focus),
                    focus_window_id(new_focus),
                )
            }
        },
    }
}

/// The pointer focus after a motion event.
pub open spec fn motion_pointer_focus(s: WallyState, raw: SubPoint) -> Option<PointerFocusTarget> {
    let c = spec_clamp_coords(s.space.outputs@, raw);
    match s.pointer.grab {
        Some(_) => None,
        None => under_focus(spec_element_under(s.space.windows@, c, s.config.border_thickness)),
    }
}

/// The keyboard focus after a motion event.
pub open spec fn motion_keyboard_focus(s: WallyState, raw: SubPoint) -> Option<u64> {
    let c = spec_clamp_coords(s.space.outputs@, raw);
    match s.pointer.grab {
        Some(_) => s.keyboard_focus,
        None => {
            let new_focus = under_focus(
                spec_element_under(s.space.windows@, c, s.config.border_thickness),
            );
            if new_focus == s.pointer_focus {
                s.keyboard_focus
            } else {
                match focus_window_id(new_focus) {
                    Some(id) => Some(id),
                    None => if focus_window_id(s.pointer_focus) is Some {
                        None
                    } else {
                        s.keyboard_focus
                    },
                }
            }
        },
    }
}

/// The effects a motion event produces.
pub open spec fn motion_effects(s: WallyState, raw: SubPoint, time: u32) -> Seq<Effect> {
    let c = spec_clamp_coords(s.space.outputs@, raw);
    match s.pointer.grab {
        Some(_) => leave_effects(s.pointer_focus) + seq![
            (Effect::Motion { target: None, location: c, time }),
            Effect::Frame,
        ],
        None => {
            let new_focus = under_focus(
                spec_element_under(s.space.windows@, c, s.config.border_thickness),
            );
            if new_focus == s.pointer_focus {
                seq![(Effect::Motion { target: new_focus, location: c, time }), Effect::Frame]
            } else {
                leave_effects(s.pointer_focus) + enter_effects(new_focus, c) + seq![
                    (Effect::Motion { target: new_focus, location: c, time }),
                    Effect::Frame,
                ]
            }
        },
    }
}

impl WallyState {
    /// Adjust a pointer position to within the total space of all outputs.
    pub fn clamp_coords(&self, pos: SubPoint) -> (r: SubPoint)
        requires
            self.wf(),
            pos.wf(),
        ensures
            r == spec_clamp_coords(self.space.outputs@, pos),
            r.wf(),
    {
        if self.space.outputs.len() == 0 {
            return pos;
        }
        let w = self.space.outputs_total_width();
        let cx = crate::geometry::clamp_i64(pos.x, 0, w * SUB_UNIT);
        let px = cx / SUB_UNIT;
        match self.space.output_under_x(px) {
            None => {
                proof {
                    lemma_first_height_none(self.space.outputs@, px);
                }
                SubPoint { x: cx, y: pos.y }
            },
            Some(i) => {
                proof {
                    lemma_first_height_at(self.space.outputs@, px, i as int);
                    assert(self.space.outputs@[i as int].wf());
                }
                let h = self.space.outputs[i].geometry.size.h;
                let cy = crate::geometry::clamp_i64(pos.y, 0, h * SUB_UNIT);
                SubPoint { x: cx, y: cy }
            },
        }
    }

    /// Update the pointer position from a raw coordinate: clamp it, and
    /// either route it through the active move grab (which moves the
    /// grabbed window and suppresses hit-testing and focus routing), or
    /// re-run hit-testing at the clamped position, transition focus if the
    /// target changed, and forward motion to the (possibly new) target.
    pub fn pointer_motion_update(&mut self, raw: SubPoint, time: u32) -> (r: Vec<Effect>)
        requires
            old(self).wf(),
            raw.wf(),
        ensures
            final(self).wf(),
            final(self).running == old(self).running,
            final(self).config == old(self).config,
            final(self).cursor_status == old(self).cursor_status,
            final(self).monitors == old(self).monitors,
            final(self).popups@ == old(self).popups@,
            final(self).space.outputs@ == old(self).space.outputs@,
            final(self).pointer.grab == old(self).pointer.grab,
            final(self).pointer.pressed_buttons@ == old(self).pointer.pressed_buttons@,
            final(self).pointer.location == spec_clamp_coords(old(self).space.outputs@, raw),
            final(self).space.windows@ == motion_windows(*old(self), raw),
            final(self).pointer_focus == motion_pointer_focus(*old(self), raw),
            final(self).keyboard_focus == motion_keyboard_focus(*old(self), raw),
            r@ == motion_effects(*old(self), raw, time),
            // while a grab is active the grabbed window follows the pointer
            // and no client receives enter or motion
            old(self).pointer.grab matches Some(g) ==> ({
                let c = spec_clamp_coords(old(self).space.outputs@, raw);
                let target = grab_target(g, c);
                &&& final(self).pointer_focus is None
                &&& final(self).keyboard_focus == old(self).keyboard_focus
                &&& (old(self).space.contains_id(g.window) ==> final(self).space.windows@
                    =~= move_to_top_result(
                    old(self).space.windows@,
                    old(self).space.index_of_id(g.window),
                    target,
                ))
                &&& (!old(self).space.contains_id(g.window) ==> final(self).space.windows@ == old(self).space.windows@)
                &&& r@ == leave_effects(old(self).pointer_focus) + seq![
                    (Effect::Motion { target: None, location: c, time }),
                    Effect::Frame,
                ]
            }),
            // normal routing: hit-test at the clamped position and follow
            // the focus transition
            old(self).pointer.grab is None ==> ({
                let c = spec_clamp_coords(old(self).space.outputs@, raw);
                let under = spec_element_under(
                    old(self).space.windows@,
                    c,
                    old(self).config.border_thickness,
                );
                let new_focus = under_focus(under);
                &&& final(self).pointer_focus == new_focus
                &&& (new_focus == old(self).pointer_focus ==> final(self).space.windows@ == old(self).space.windows@ && final(self).keyboard_focus == old(self).keyboard_focus && r@
                    == seq![
                    (Effect::Motion { target: new_focus, location: c, time }),
                    Effect::Frame,
                ])
                &&& (new_focus != old(self).pointer_focus ==> ({
                    let from = focus_window_id(old(self).pointer_focus);
                    let to = focus_window_id(new_focus);
                    &&& final(self).space.windows@ == focus_flags(
                        old(self).space.windows@,
                        from,
                        to,
                    )
                    &&& final(self).keyboard_focus == (match to {
                        Some(id) => Some(id),
                        None => if from is Some {
                            None
                        } else {
                            old(self).keyboard_focus
                        },
                    })
                    &&& r@ == leave_effects(old(self).pointer_focus) + enter_effects(new_focus, c)
                        + seq![
                        (Effect::Motion { target: new_focus, location: c, time }),
                        Effect::Frame,
                    ]
                }))
            }),
    {
        let c = self.clamp_coords(raw);
        let mut effects: Vec<Effect> = Vec::new();
        match self.pointer.grab {
            Some(g) => {
                if let Some(t) = self.pointer_focus {
                    effects.push(Effect::PointerLeave { target: t });
                    effects.push(Effect::SendPendingConfigureAll);
                }
                self.pointer_focus = None;
                let tx = crate::geometry::clamp_i64(
                    crate::geometry::round_sub(
                        g.initial_window_location.x * SUB_UNIT + (c.x - g.start_location.x),
                    ),
                    -COORD_LIMIT,
                    COORD_LIMIT,
                );
                let ty = crate::geometry::clamp_i64(
                    crate::geometry::round_sub(
                        g.initial_window_location.y * SUB_UNIT + (c.y - g.start_location.y),
                    ),
                    -COORD_LIMIT,
                    COORD_LIMIT,
                );
                let target = Point { x: tx, y: ty };
                proof {
                    assert(target == grab_target(g, c));
                }
                let pos = self.space.position_of(g.window);
                if let Some(i) = pos {
                    proof {
                        let oi = old(self).space.index_of_id(g.window);
                        assert(0 <= oi < old(self).space.windows@.len() && old(self).space.windows@[oi].id == g.window);
                        assert(i == oi);
                        assert(old(self).space.windows@[i as int].wf());
                    }
                    let entry = self.space.windows[i];
                    self.space.map_element(entry, target, true);
                    proof {
                        let ws0 = old(self).space.windows@;
                        let oi = old(self).space.index_of_id(g.window);
                        assert(self.space.windows@ =~= move_to_top_result(ws0, oi, target));
                    }
                }
                self.pointer.location = c;
                effects.push(Effect::Motion { target: None, location: c, time });
                effects.push(Effect::Frame);
                proof {
                    assert(effects@ =~= leave_effects(old(self).pointer_focus) + seq![
                        (Effect::Motion { target: None, location: c, time }),
                        Effect::Frame,
                    ]);
                }
                effects
            },
            None => {
                let under = self.space.element_under(c, self.config.border_thickness);
                let new_focus = match under {
                    Some((id, _)) => Some(PointerFocusTarget::WindowElement(id)),
                    None => None,
                };
                let changed = !option_target_eq(&self.pointer_focus, &new_focus);
                if changed {
                    let ghost sp0 = self.space;
                    let ghost from = focus_window_id(self.pointer_focus);
                    let ghost to = focus_window_id(new_focus);
                    if let Some(t) = self.pointer_focus {
                        effects.push(Effect::PointerLeave { target: t });
                        effects.push(Effect::SendPendingConfigureAll);
                        if let Some(old_id) = t.window_id() {
                            self.space.set_focused(old_id, false);
                            self.keyboard_focus = None;
                        }
                    }
                    let ghost sp_mid = self.space;
                    if let Some(nf) = new_focus {
                        effects.push(Effect::PointerEnter { target: nf, location: c });
                        effects.push(Effect::SendPendingConfigureAll);
                        if let Some(new_id) = nf.window_id() {
                            self.space.set_focused(new_id, true);
                            self.keyboard_focus = Some(new_id);
                        }
                    }
                    self.pointer_focus = new_focus;
                    proof {
                        let ws0 = sp0.windows@;
                        let ws_mid = sp_mid.windows@;
                        let ws2 = self.space.windows@;
                        let expected = focus_flags(ws0, from, to);
                        match from {
                            Some(oid) => {
                                if sp0.contains_id(oid) {
                                    let io = sp0.index_of_id(oid);
                                    assert(0 <= io < ws0.len() && ws0[io].id == oid);
                                    assert(ws_mid == ws0.update(io, with_focus(ws0[io], false)));
                                    assert forall|m: int|
                                        0 <= m < ws0.len() && m != io implies #[trigger] ws0[
                                        m].id != oid by {}
                                } else {
                                    assert(ws_mid == ws0);
                                }
                            },
                            None => {
                                assert(ws_mid == ws0);
                            },
                        }
                        assert(ws_mid.len() == ws0.len());
                        assert(forall|m: int|
                            0 <= m < ws0.len() ==> (#[trigger] ws_mid[m]).id == ws0[m].id);
                        match to {
                            Some(nid) => {
                                assert(sp_mid.contains_id(nid)) by {
                                    let iw = choose|m: int|
                                        0 <= m < ws0.len() && (#[trigger] ws0[m]).id == nid;
                                    assert(ws_mid[iw].id == nid);
                                }
                                let ie = sp_mid.index_of_id(nid);
                                assert(0 <= ie < ws_mid.len() && ws_mid[ie].id == nid);
                                assert(ws2 == ws_mid.update(ie, with_focus(ws_mid[ie], true)));
                                assert forall|m: int|
                                    0 <= m < ws_mid.len() && m != ie implies #[trigger] ws_mid[
                                    m].id != nid by {}
                            },
                            None => {
                                assert(ws2 == ws_mid);
                            },
                        }
                        assert(ws2.len() == ws0.len());
                        assert forall|k: int| 0 <= k < ws0.len() implies #[trigger] ws2[k]
                            == expected[k] by {
                            assert(ws_mid[k].id == ws0[k].id);
                        }
                        assert(ws2 =~= expected);
                    }
                }
                self.pointer.location = c;
                effects.push(Effect::Motion { target: new_focus, location: c, time });
                effects.push(Effect::Frame);
                proof {
                    if new_focus == old(self).pointer_focus {
                        assert(effects@ =~= seq![
                            (Effect::Motion { target: new_focus, location: c, time }),
                            Effect::Frame,
                        ]);
                    } else {
                        assert(effects@ =~= leave_effects(old(self).pointer_focus)
                            + enter_effects(new_focus, c) + seq![
                            (Effect::Motion { target: new_focus, location: c, time }),
                            Effect::Frame,
                        ]);
                    }
                }
                effects
            },
        }
    }
}

/// A component-wise sum of a position and a delta, saturated at the
/// model's working range.
pub open spec fn spec_add_sat(pos: SubPoint, delta: SubPoint) -> SubPoint {
    SubPoint {
        x: spec_clamp(pos.x + delta.x, -(SUB_LIMIT as int), SUB_LIMIT as int) as i64,
        y: spec_clamp(pos.y + delta.y, -(SUB_LIMIT as int), SUB_LIMIT as int) as i64,
    }
}

fn add_sat(pos: SubPoint, delta: SubPoint) -> (r: SubPoint)
    requires
        pos.wf(),
        delta.wf(),
    ensures
        r == spec_add_sat(pos, delta),
        r.wf(),
{
    SubPoint {
        x: crate::geometry::clamp_i64(pos.x + delta.x, -SUB_LIMIT, SUB_LIMIT),
        y: crate::geometry::clamp_i64(pos.y + delta.y, -SUB_LIMIT, SUB_LIMIT),
    }
}

/// The scroll frame an axis event produces: continuous amounts from the
/// native values or the normalised discrete ones, the discrete values kept
/// alongside nonzero amounts, and explicit per-axis stops for finger
/// gestures whose native amount is exactly zero.
pub open spec fn spec_axis_frame(
    source: AxisSource,
    horizontal: Option<i64>,
    vertical: Option<i64>,
    horizontal_v120: Option<i64>,
    vertical_v120: Option<i64>,
    time: u32,
) -> AxisFrame {
    let h = spec_axis_amount(horizontal, horizontal_v120);
    let v = spec_axis_amount(vertical, vertical_v120);
    AxisFrame {
        source,
        time,
        horizontal: if h != 0 {
            Some(h as i64)
        } else {
            None
        },
        vertical: if v != 0 {
            Some(v as i64)
        } else {
            None
        },
        horizontal_v120: if h != 0 {
            horizontal_v120
        } else {
            None
        },
        vertical_v120: if v != 0 {
            vertical_v120
        } else {
            None
        },
        horizontal_stop: source == AxisSource::Finger && horizontal == Some(0i64),
        vertical_stop: source == AxisSource::Finger && vertical == Some(0i64),
    }
}

impl WallyState {
    /// Start an interactive move of a window: capture the current pointer
    /// location, the window, and the window's current location.  A grab
    /// starts only for a mapped window, while a button is held, and while
    /// no other grab is active; the call reports whether it did.
    pub fn start_move_grab(&mut self, window: u64) -> (r: bool)
        requires
            old(self).wf(),
        ensures
            final(self).wf(),
            final(self).running == old(self).running,
            final(self).config == old(self).config,
            final(self).space == old(self).space,
            final(self).pointer_focus == old(self).pointer_focus,
            final(self).keyboard_focus == old(self).keyboard_focus,
            final(self).cursor_status == old(self).cursor_status,
            final(self).monitors == old(self).monitors,
            final(self).popups@ == old(self).popups@,
            final(self).pointer.location == old(self).pointer.location,
            final(self).pointer.pressed_buttons@ == old(self).pointer.pressed_buttons@,
            r == (old(self).space.contains_id(window) && old(self).pointer.pressed_buttons@.len()
                > 0 && old(self).pointer.grab is None),
            r ==> final(self).pointer.grab == Some(
                (MoveSurfaceGrab {
                    start_location: old(self).pointer.location,
                    window,
                    initial_window_location: old(self).space.windows@[old(self).space.index_of_id(
                        window,
                    )].geometry.loc,
                }),
            ),
            !r ==> final(self).pointer.grab == old(self).pointer.grab,
    {
        if self.pointer.pressed_buttons.len() == 0 || self.pointer.grab.is_some() {
            return false;
        }
        let pos = self.space.position_of(window);
        match pos {
            None => false,
            Some(i) => {
                proof {
                    let oi = old(self).space.index_of_id(window);
                    assert(0 <= oi < old(self).space.windows@.len() && old(self).space.windows@[
                        oi].id == window);
                    assert(i == oi);
                    assert(old(self).space.windows@[i as int].wf());
                }
                let initial = self.space.windows[i].geometry.loc;
                self.pointer.grab = Some(
                    MoveSurfaceGrab {
                        start_location: self.pointer.location,
                        window,
                        initial_window_location: initial,
                    },
                );
                true
            },
        }
    }

    /// Route a pointer button event.
    ///
    /// On press with no grab active, the window under the pointer is
    /// raised and becomes the focused one — its flag set, every other
    /// cleared, keyboard focus on its surface — and every window is asked
    /// to re-send its configuration; a press over empty space instead
    /// clears every focus flag and the keyboard focus.  While a grab is
    /// active this routing is suppressed.  The button event itself is
    /// always forwarded afterward.  On release, when no buttons remain
    /// pressed, the active grab ends.
    pub fn handle_pointer_button(&mut self, button: u32, pressed: bool, time: u32) -> (r: Vec<
        Effect,
    >)
        requires
            old(self).wf(),
        ensures
            final(self).wf(),
            final(self).running == old(self).running,
            final(self).config == old(self).config,
            final(self).cursor_status == old(self).cursor_status,
            final(self).monitors == old(self).monitors,
            final(self).popups@ == old(self).popups@,
            final(self).space.outputs@ == old(self).space.outputs@,
            final(self).pointer.location == old(self).pointer.location,
            final(self).pointer_focus == old(self).pointer_focus,
            // held-button bookkeeping
            pressed ==> final(self).pointer.has_button(button) && (old(self).pointer.has_button(
                button,
            ) ==> final(self).pointer.pressed_buttons@ == old(self).pointer.pressed_buttons@) && (
            !old(self).pointer.has_button(button) ==> final(self).pointer.pressed_buttons@ == old(self).pointer.pressed_buttons@.push(button)),
            !pressed ==> !final(self).pointer.has_button(button) && (old(self).pointer.has_button(
                button,
            ) ==> final(self).pointer.pressed_buttons@ == old(self).pointer.pressed_buttons@.remove(old(self).pointer.button_index(button))) && (!old(self).pointer.has_button(button) ==> final(self).pointer.pressed_buttons@ == old(self).pointer.pressed_buttons@),
            // the grab ends exactly when the last held button is released
            pressed ==> final(self).pointer.grab == old(self).pointer.grab,
            !pressed ==> (if final(self).pointer.pressed_buttons@.len() == 0 {
                final(self).pointer.grab is None
            } else {
                final(self).pointer.grab == old(self).pointer.grab
            }),
            // press with no grab: raise-and-focus under the pointer, or
            // deactivate everything over empty space
            (pressed && old(self).pointer.grab is None) ==> ({
                let under = spec_element_under(
                    old(self).space.windows@,
                    old(self).pointer.location,
                    old(self).config.border_thickness,
                );
                match under {
                    Some((id, loc)) => {
                        &&& final(self).space.windows@ =~= raise_activate_result(
                            old(self).space.windows@,
                            old(self).space.index_of_id(id),
                        )
                        &&& final(self).keyboard_focus == Some(id)
                        &&& (forall|k: int|
                            0 <= k < final(self).space.windows@.len() ==> ((
                            #[trigger] final(self).space.windows@[k]).state.is_focused <==> final(self).space.windows@[k].id == id))
                        &&& r@ == seq![
                            Effect::SendPendingConfigureAll,
                            (Effect::Button { button, pressed, time }),
                            Effect::Frame,
                        ]
                    },
                    None => {
                        &&& final(self).space.windows@.len() == old(self).space.windows@.len()
                        &&& (forall|k: int|
                            0 <= k < final(self).space.windows@.len() ==> final(self).space.windows@[k] == with_focus(
                                #[trigger] old(self).space.windows@[k],
                                false,
                            ))
                        &&& final(self).keyboard_focus is None
                        &&& r@ == seq![
                            Effect::SendPendingConfigureAll,
                            (Effect::Button { button, pressed, time }),
                            Effect::Frame,
                        ]
                    },
                }
            }),
            (pressed && old(self).pointer.grab is Some) ==> final(self).space == old(self).space
                && final(self).keyboard_focus == old(self).keyboard_focus && r@ == seq![
                (Effect::Button { button, pressed, time }),
                Effect::Frame,
            ],
            !pressed ==> final(self).space == old(self).space && final(self).keyboard_focus == old(self).keyboard_focus && r@ == seq![
                (Effect::Button { button, pressed, time }),
                Effect::Frame,
            ],
    {
        let mut effects: Vec<Effect> = Vec::new();
        if pressed {
            self.pointer.press_button(button);
            if self.pointer.grab.is_none() {
                let under = self.space.element_under(
                    self.pointer.location,
                    self.config.border_thickness,
                );
                match under {
                    Some((id, _)) => {
                        proof {
                            let oi = old(self).space.index_of_id(id);
                            assert(exists|m: int|
                                0 <= m < old(self).space.windows@.len() && (#[trigger] old(self).space.windows@[m]).id == id);
                            assert(0 <= oi < old(self).space.windows@.len() && old(self).space.windows@[oi].id == id);
                        }
                        self.space.raise_element(id, true);
                        self.keyboard_focus = Some(id);
                        effects.push(Effect::SendPendingConfigureAll);
                        proof {
                            let ws0 = old(self).space.windows@;
                            let oi = old(self).space.index_of_id(id);
                            let ws2 = self.space.windows@;
                            assert(ws2 =~= raise_activate_result(ws0, oi));
                            let stripped = ws0.remove(oi);
                            assert forall|k: int|
                                0 <= k < ws2.len() implies ((#[trigger] ws2[k]).state.is_focused
                                <==> ws2[k].id == id) by {
                                if k < ws2.len() - 1 {
                                    assert(ws2[k] == with_focus(stripped[k], false));
                                    if k < oi {
                                        assert(stripped[k] == ws0[k]);
                                    } else {
                                        assert(stripped[k] == ws0[k + 1]);
                                    }
                                } else {
                                    assert(ws2[k] == with_focus(ws0[oi], true));
                                }
                            }
                        }
                    },
                    None => {
                        self.space.set_focus_exclusive(None);
                        self.keyboard_focus = None;
                        effects.push(Effect::SendPendingConfigureAll);
                    },
                }
            }
        } else {
            self.pointer.release_button(button);
            if self.pointer.pressed_buttons.len() == 0 {
                self.pointer.grab = None;
            }
        }
        effects.push(Effect::Button { button, pressed, time });
        effects.push(Effect::Frame);
        proof {
            if pressed && old(self).pointer.grab is None {
                let under = spec_element_under(
                    old(self).space.windows@,
                    old(self).pointer.location,
                    old(self).config.border_thickness,
                );
                if under is Some {
                    assert(effects@ =~= seq![
                        Effect::SendPendingConfigureAll,
                        (Effect::Button { button, pressed, time }),
                        Effect::Frame,
                    ]);
                } else {
                    assert(effects@ =~= seq![
                        Effect::SendPendingConfigureAll,
                        (Effect::Button { button, pressed, time }),
                        Effect::Frame,
                    ]);
                }
            } else {
                assert(effects@ =~= seq![
                    (Effect::Button { button, pressed, time }),
                    Effect::Frame,
                ]);
            }
        }
        effects
    }

    /// Route a key event: on press, a (modifiers, keysym) pair bound in
    /// the keybind table is intercepted and its action dispatched (a spawn
    /// action yields the command to run); any other key is forwarded to
    /// the keyboard focus.
    pub fn handle_keyboard(&mut self, pressed: bool, modifier_bits: u32, keysym: u32, time: u32)
        -> (r: Vec<Effect>)
        requires
            old(self).wf(),
        ensures
            final(self).wf(),
            final(self).config == old(self).config,
            final(self).space == old(self).space,
            final(self).pointer == old(self).pointer,
            final(self).pointer_focus == old(self).pointer_focus,
            final(self).keyboard_focus == old(self).keyboard_focus,
            final(self).cursor_status == old(self).cursor_status,
            final(self).monitors == old(self).monitors,
            final(self).popups@ == old(self).popups@,
            ({
                let bind = Keybind { modifiers: KeyModifiers { bits: modifier_bits }, key: keysym };
                if pressed && table_has_bind(old(self).config.keybinds@, bind) {
                    forall|i: int|
                        0 <= i < old(self).config.keybinds@.len() && (#[trigger] old(self).config.keybinds@[i]).0 == bind ==> (match old(self).config.keybinds@[i].1 {
                            Action::Spawn(command) => r@ == seq![Effect::Spawn(command)] && final(self).running == old(self).running,
                            Action::Quit => r@ == Seq::<Effect>::empty() && !final(self).running,
                            _ => r@ == Seq::<Effect>::empty() && final(self).running == old(self).running,
                        })
                } else {
                    r@ == seq![(Effect::ForwardKey { keysym, pressed, time })] && final(self).running == old(self).running
                }
            }),
    {
        let mut effects: Vec<Effect> = Vec::new();
        let bind = Keybind { modifiers: KeyModifiers { bits: modifier_bits }, key: keysym };
        if pressed {
            match crate::keybind::lookup_action(&self.config.keybinds, bind) {
                Some(action) => {
                    let ghost a = action;
                    let spawn = self.handle_action(action);
                    if let Some(command) = spawn {
                        effects.push(Effect::Spawn(command));
                    }
                    proof {
                        let table = old(self).config.keybinds@;
                        let iw = choose|i: int|
                            0 <= i < table.len() && table[i].0 == bind && table[i].1 == a;
                        assert forall|i: int|
                            0 <= i < table.len() && (#[trigger] table[i]).0 == bind implies (
                        match table[i].1 {
                            Action::Spawn(command) => effects@ == seq![Effect::Spawn(command)]
                                && self.running == old(self).running,
                            Action::Quit => effects@ == Seq::<Effect>::empty() && !self.running,
                            _ => effects@ == Seq::<Effect>::empty() && self.running == old(self).running,
                        }) by {
                            assert(i == iw);
                            match table[i].1 {
                                Action::Spawn(command) => {
                                    assert(effects@ =~= seq![Effect::Spawn(command)]);
                                },
                                Action::Quit => {
                                    assert(a == Action::Quit);
                                    assert(effects@ =~= Seq::<Effect>::empty());
                                },
                                _ => {
                                    assert(a != Action::Quit);
                                    assert(effects@ =~= Seq::<Effect>::empty());
                                },
                            }
                        }
                    }
                },
                None => {
                    effects.push(Effect::ForwardKey { keysym, pressed, time });
                    proof {
                        assert(effects@ =~= seq![(Effect::ForwardKey { keysym, pressed, time })]);
                    }
                },
            }
        } else {
            effects.push(Effect::ForwardKey { keysym, pressed, time });
            proof {
                assert(effects@ =~= seq![(Effect::ForwardKey { keysym, pressed, time })]);
            }
        }
        effects
    }

    /// Route a scroll event: build the normalised axis frame and close the
    /// batch.  The core state is untouched.
    pub fn handle_pointer_axis(
        &mut self,
        source: AxisSource,
        horizontal: Option<i64>,
        vertical: Option<i64>,
        horizontal_v120: Option<i64>,
        vertical_v120: Option<i64>,
        time: u32,
    ) -> (r: Vec<Effect>)
        requires
            old(self).wf(),
            horizontal_v120 matches Some(d) ==> -0x1_0000_0000 <= d <= 0x1_0000_0000,
            vertical_v120 matches Some(d) ==> -0x1_0000_0000 <= d <= 0x1_0000_0000,
        ensures
            final(self).wf(),
            *final(self) == *old(self),
            r@ == seq![
                Effect::Axis(
                    spec_axis_frame(source, horizontal, vertical, horizontal_v120, vertical_v120, time),
                ),
                Effect::Frame,
            ],
    {
        let h = axis_amount(horizontal, horizontal_v120);
        let v = axis_amount(vertical, vertical_v120);
        let is_finger = matches!(source, AxisSource::Finger);
        let frame = AxisFrame {
            source,
            time,
            horizontal: if h != 0 {
                Some(h)
            } else {
                None
            },
            vertical: if v != 0 {
                Some(v)
            } else {
                None
            },
            horizontal_v120: if h != 0 {
                horizontal_v120
            } else {
                None
            },
            vertical_v120: if v != 0 {
                vertical_v120
            } else {
                None
            },
            horizontal_stop: is_finger && matches!(horizontal, Some(0)),
            vertical_stop: is_finger && matches!(vertical, Some(0)),
        };
        let mut effects: Vec<Effect> = Vec::new();
        effects.push(Effect::Axis(frame));
        effects.push(Effect::Frame);
        proof {
            assert(frame == spec_axis_frame(
                source,
                horizontal,
                vertical,
                horizontal_v120,
                vertical_v120,
                time,
            ));
            assert(effects@ =~= seq![Effect::Axis(frame), Effect::Frame]);
        }
        effects
    }
}

/// The conditions a raw event's payload meets by construction at the
/// backend boundary: coordinates in the model's working range and discrete
/// scroll values within one notch of a plausible device burst.
pub open spec fn event_wf(e: InputEvent) -> bool {
    match e {
        InputEvent::Keyboard { .. } => true,
        InputEvent::PointerMotion { delta, .. } => delta.wf(),
        InputEvent::PointerMotionAbsolute { position, .. } => position.wf(),
        InputEvent::PointerButton { .. } => true,
        InputEvent::PointerAxis { horizontal_v120, vertical_v120, .. } => {
            &&& (horizontal_v120 matches Some(d) ==> -0x1_0000_0000 <= d <= 0x1_0000_0000)
            &&& (vertical_v120 matches Some(d) ==> -0x1_0000_0000 <= d <= 0x1_0000_0000)
        },
    }
}

impl WallyState {
    /// Route one raw input event: the per-event-kind state machine.
    ///
    /// Key presses are matched against the keybind table and either
    /// intercepted as actions or forwarded; pointer motion (relative or
    /// absolute) is clamped, hit-tested and routed — through the move grab
    /// while one is active; buttons raise-and-focus or end the grab;
    /// scroll events are normalised into an axis frame.
    pub fn process_input_event(&mut self, event: InputEvent) -> (r: Vec<Effect>)
        requires
            old(self).wf(),
            event_wf(event),
        ensures
            final(self).wf(),
            !(event matches InputEvent::Keyboard { .. }) ==> final(self).running == old(self).running,
            final(self).config == old(self).config,
            final(self).cursor_status == old(self).cursor_status,
            final(self).monitors == old(self).monitors,
            final(self).popups@ == old(self).popups@,
            final(self).space.outputs@ == old(self).space.outputs@,
            // key events: intercept bound presses (Quit stops the run
            // loop), forward the rest
            event matches InputEvent::Keyboard { pressed, modifier_bits, keysym, time } ==> ({
                let bind = Keybind { modifiers: KeyModifiers { bits: modifier_bits }, key: keysym };
                &&& final(self).space == old(self).space
                &&& final(self).pointer == old(self).pointer
                &&& final(self).pointer_focus == old(self).pointer_focus
                &&& final(self).keyboard_focus == old(self).keyboard_focus
                &&& (if pressed && table_has_bind(old(self).config.keybinds@, bind) {
                    forall|i: int|
                        0 <= i < old(self).config.keybinds@.len() && (#[trigger] old(self).config.keybinds@[i]).0 == bind ==> (match old(self).config.keybinds@[i].1 {
                            Action::Spawn(command) => r@ == seq![Effect::Spawn(command)] && final(self).running == old(self).running,
                            Action::Quit => r@ == Seq::<Effect>::empty() && !final(self).running,
                            _ => r@ == Seq::<Effect>::empty() && final(self).running == old(self).running,
                        })
                } else {
                    r@ == seq![(Effect::ForwardKey { keysym, pressed, time })] && final(self).running == old(self).running
                })
            }),
            // relative motion: forward it to the current focus, then treat
            // the summed position as a position update
            event matches InputEvent::PointerMotion { delta, delta_unaccel, time } ==> ({
                let raw = spec_add_sat(old(self).pointer.location, delta);
                &&& final(self).pointer.location == spec_clamp_coords(
                    old(self).space.outputs@,
                    raw,
                )
                &&& final(self).pointer.grab == old(self).pointer.grab
                &&& final(self).pointer.pressed_buttons@ == old(self).pointer.pressed_buttons@
                &&& final(self).space.windows@ == motion_windows(*old(self), raw)
                &&& final(self).pointer_focus == motion_pointer_focus(*old(self), raw)
                &&& final(self).keyboard_focus == motion_keyboard_focus(*old(self), raw)
                &&& r@ == seq![
                    (Effect::RelativeMotion {
                        target: old(self).pointer_focus,
                        delta,
                        delta_unaccel,
                        time,
                    }),
                ] + motion_effects(*old(self), raw, time)
            }),
            // absolute motion: a position update at the given coordinate
            event matches InputEvent::PointerMotionAbsolute { position, time } ==> ({
                &&& final(self).pointer.location == spec_clamp_coords(
                    old(self).space.outputs@,
                    position,
                )
                &&& final(self).pointer.grab == old(self).pointer.grab
                &&& final(self).pointer.pressed_buttons@ == old(self).pointer.pressed_buttons@
                &&& final(self).space.windows@ == motion_windows(*old(self), position)
                &&& final(self).pointer_focus == motion_pointer_focus(*old(self), position)
                &&& final(self).keyboard_focus == motion_keyboard_focus(*old(self), position)
                &&& r@ == motion_effects(*old(self), position, time)
            }),
            // buttons: raise-and-focus on press, grab teardown on the last
            // release, and the event forwarded either way
            event matches InputEvent::PointerButton { button, pressed, time } ==> ({
                &&& final(self).pointer.location == old(self).pointer.location
                &&& final(self).pointer_focus == old(self).pointer_focus
                &&& (pressed ==> final(self).pointer.has_button(button) && final(self).pointer.grab == old(self).pointer.grab)
                &&& (!pressed ==> !final(self).pointer.has_button(button) && final(self).space
                    == old(self).space && final(self).keyboard_focus == old(self).keyboard_focus
                    && r@ == seq![
                    (Effect::Button { button, pressed, time }),
                    Effect::Frame,
                ] && (if final(self).pointer.pressed_buttons@.len() == 0 {
                    final(self).pointer.grab is None
                } else {
                    final(self).pointer.grab == old(self).pointer.grab
                }))
                &&& ((pressed && old(self).pointer.grab is None) ==> ({
                    let under = spec_element_under(
                        old(self).space.windows@,
                        old(self).pointer.location,
                        old(self).config.border_thickness,
                    );
                    match under {
                        Some((id, loc)) => {
                            &&& final(self).space.windows@ =~= raise_activate_result(
                                old(self).space.windows@,
                                old(self).space.index_of_id(id),
                            )
                            &&& final(self).keyboard_focus == Some(id)
                            &&& (forall|k: int|
                                0 <= k < final(self).space.windows@.len() ==> ((
                                #[trigger] final(self).space.windows@[k]).state.is_focused
                                    <==> final(self).space.windows@[k].id == id))
                            &&& r@ == seq![
                                Effect::SendPendingConfigureAll,
                                (Effect::Button { button, pressed, time }),
                                Effect::Frame,
                            ]
                        },
                        None => {
                            &&& final(self).space.windows@.len() == old(self).space.windows@.len()
                            &&& (forall|k: int|
                                0 <= k < final(self).space.windows@.len() ==> final(self).space.windows@[k] == with_focus(
                                    #[trigger] old(self).space.windows@[k],
                                    false,
                                ))
                            &&& final(self).keyboard_focus is None
                            &&& r@ == seq![
                                Effect::SendPendingConfigureAll,
                                (Effect::Button { button, pressed, time }),
                                Effect::Frame,
                            ]
                        },
                    }
                }))
                &&& ((pressed && old(self).pointer.grab is Some) ==> final(self).space == old(self).space && final(self).keyboard_focus == old(self).keyboard_focus && r@ == seq![
                    (Effect::Button { button, pressed, time }),
                    Effect::Frame,
                ])
            }),
            // scroll: a normalised axis frame, the state untouched
            event matches InputEvent::PointerAxis {
                source,
                horizontal,
                vertical,
                horizontal_v120,
                vertical_v120,
                time,
            } ==> ({
                &&& *final(self) == *old(self)
                &&& r@ == seq![
                    Effect::Axis(
                        spec_axis_frame(
                            source,
                            horizontal,
                            vertical,
                            horizontal_v120,
                            vertical_v120,
                            time,
                        ),
                    ),
                    Effect::Frame,
                ]
            }),
    {
        match event {
            InputEvent::Keyboard { pressed, modifier_bits, keysym, time } => self.handle_keyboard(
                pressed,
                modifier_bits,
                keysym,
                time,
            ),
            InputEvent::PointerMotion { delta, delta_unaccel, time } => {
                let raw = add_sat(self.pointer.location, delta);
                let mut effects: Vec<Effect> = Vec::new();
                effects.push(
                    Effect::RelativeMotion {
                        target: self.pointer_focus,
                        delta,
                        delta_unaccel,
                        time,
                    },
                );
                let mut tail = self.pointer_motion_update(raw, time);
                effects.append(&mut tail);
                proof {
                    assert(effects@ =~= seq![
                        (Effect::RelativeMotion {
                            target: old(self).pointer_focus,
                            delta,
                            delta_unaccel,
                            time,
                        }),
                    ] + motion_effects(*old(self), raw, time));
                }
                effects
            },
            InputEvent::PointerMotionAbsolute { position, time } => self.pointer_motion_update(
                position,
                time,
            ),
            InputEvent::PointerButton { button, pressed, time } => self.handle_pointer_button(
                button,
                pressed,
                time,
            ),
            InputEvent::PointerAxis {
                source,
                horizontal,
                vertical,
                horizontal_v120,
                vertical_v120,
                time,
            } => self.handle_pointer_axis(
                source,
                horizontal,
                vertical,
                horizontal_v120,
                vertical_v120,
                time,
            ),
        }
    }
}

/// Grab algebra: motion while a grab is active puts the window at its
/// initial location plus the pointer delta, rounded to the nearest pixel.
/// For a whole-pixel delta `(dx, dy)` whose result lies in the working
/// range, that is exactly `initial_position + (dx, dy)`.
pub proof fn lemma_grab_whole_pixel_delta(g: MoveSurfaceGrab, c: SubPoint, dx: int, dy: int)
    requires
        g.wf(),
        c.x - g.start_location.x == dx * SUB_UNIT,
        c.y - g.start_location.y == dy * SUB_UNIT,
        crate::geometry::px_ok(g.initial_window_location.x + dx),
        crate::geometry::px_ok(g.initial_window_location.y + dy),
    ensures
        grab_target(g, c) == (Point {
            x: (g.initial_window_location.x + dx) as i64,
            y: (g.initial_window_location.y + dy) as i64,
        }),
{
    assert(g.initial_window_location.x * SUB_UNIT + (c.x - g.start_location.x)
        == (g.initial_window_location.x + dx) * SUB_UNIT) by (nonlinear_arith)
        requires
            c.x - g.start_location.x == dx * SUB_UNIT,
    ;
    assert(g.initial_window_location.y * SUB_UNIT + (c.y - g.start_location.y)
        == (g.initial_window_location.y + dy) * SUB_UNIT) by (nonlinear_arith)
        requires
            c.y - g.start_location.y == dy * SUB_UNIT,
    ;
    crate::geometry::lemma_round_sub_exact(g.initial_window_location.x + dx);
    crate::geometry::lemma_round_sub_exact(g.initial_window_location.y + dy);
}

/// After the grab ends, further pointer motion moves no window: without an
/// active grab a motion event changes focus flags at most, never a
/// window's geometry.
pub proof fn lemma_motion_without_grab_moves_nothing(s: WallyState, raw: SubPoint)
    requires
        s.pointer.grab is None,
    ensures
        motion_windows(s, raw).len() == s.space.windows@.len(),
        forall|k: int|
            0 <= k < s.space.windows@.len() ==> (#[trigger] motion_windows(s, raw)[k]).geometry
                == s.space.windows@[k].geometry && motion_windows(s, raw)[k].id
                == s.space.windows@[k].id,
{
}

} // verus!
