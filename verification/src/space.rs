//! The spatial model: an ordered stack of windows mapped onto a 2D plane,
//! together with the display outputs that view it.
//!
//! The stacking order runs bottom to top (top of the stack is the last
//! element).  The model keeps each window at most once; removal happens
//! when the window is unmapped or pruned after its surface died.

use vstd::prelude::*;

use crate::geometry::{spec_inflate, Point, Rect, SubPoint, COORD_LIMIT};

verus! {

/// Per-window state read by the render pipeline: whether the window holds
/// the focus-indicating border color.
#[derive(Clone, Copy, Debug, PartialEq, Eq, Structural)]
pub struct WindowState {
    pub is_focused: bool,
}

/// The compositor-side handle for one client window: its content geometry,
/// its focus flag, and its client association.
#[derive(Clone, Copy, Debug, PartialEq, Eq, Structural)]
pub struct WindowElement {
    /// Identifier of the window's underlying surface.
    pub id: u64,
    /// Identifier of the owning client.
    pub client: u64,
    /// Content rectangle, without the border.
    pub geometry: Rect,
    pub state: WindowState,
    /// Whether the underlying surface is still alive.
    pub alive: bool,
    /// Whether the initial configure was already sent for this surface.
    pub initial_configure_sent: bool,
}

/// A device-independent display region.
#[derive(Clone, Copy, Debug, PartialEq, Eq, Structural)]
pub struct Output {
    pub id: u64,
    /// Position and mode size in logical pixels.
    pub geometry: Rect,
    /// Integer scale factor (logical to physical pixels), at least 1.
    pub scale: i64,
}

/// The window `w` with its focus flag replaced.
pub open spec fn with_focus(w: WindowElement, focused: bool) -> WindowElement {
    WindowElement { state: WindowState { is_focused: focused }, ..w }
}

/// The window `w` moved so its content rectangle starts at `loc`.
pub open spec fn with_loc(w: WindowElement, loc: Point) -> WindowElement {
    WindowElement { geometry: Rect { loc, size: w.geometry.size }, ..w }
}

/// The topmost window whose border-inflated bounding box contains the
/// point, with its content location: hit-testing walks the stack from the
/// top and includes the border.
pub open spec fn spec_element_under(ws: Seq<WindowElement>, p: SubPoint, thickness: u8) -> Option<
    (u64, Point),
>
    decreases ws.len(),
{
    if ws.len() == 0 {
        None
    } else {
        let top = ws[ws.len() - 1];
        if spec_inflate(top.geometry, thickness).spec_contains_sub(p) {
            Some((top.id, top.geometry.loc))
        } else {
            spec_element_under(ws.drop_last(), p, thickness)
        }
    }
}

/// The stack after the window at `idx` moved to the top with the focus
/// flag, every other window losing it, and its location replaced by `loc`.
pub open spec fn move_to_top_result(ws: Seq<WindowElement>, idx: int, loc: Point) -> Seq<
    WindowElement,
> {
    ws.remove(idx).map_values(|w: WindowElement| with_focus(w, false)).push(
        with_loc(with_focus(ws[idx], true), loc),
    )
}

/// The stack after the window at `idx` moved to the top with the focus
/// flag, every other window losing it.
pub open spec fn raise_activate_result(ws: Seq<WindowElement>, idx: int) -> Seq<WindowElement> {
    ws.remove(idx).map_values(|w: WindowElement| with_focus(w, false)).push(
        with_focus(ws[idx], true),
    )
}

/// How often `id` occurs in a window stack.
pub open spec fn count_id(ws: Seq<WindowElement>, id: u64) -> nat
    decreases ws.len(),
{
    if ws.len() == 0 {
        0
    } else {
        (if ws[0].id == id {
            1nat
        } else {
            0nat
        }) + count_id(ws.drop_first(), id)
    }
}

/// The sum of the output widths.
pub open spec fn total_width(outs: Seq<Output>) -> int
    decreases outs.len(),
{
    if outs.len() == 0 {
        0
    } else {
        outs[0].geometry.size.w + total_width(outs.drop_first())
    }
}

impl WindowElement {
    pub open spec fn wf(self) -> bool {
        self.geometry.wf()
    }

    /// A freshly mapped window: alive, focused (new windows are activated
    /// on creation), with no configure sent yet.
    pub fn new(id: u64, client: u64, geometry: Rect) -> (w: WindowElement)
        requires
            geometry.wf(),
        ensures
            w == (WindowElement {
                id,
                client,
                geometry,
                state: WindowState { is_focused: true },
                alive: true,
                initial_configure_sent: false,
            }),
    {
        WindowElement {
            id,
            client,
            geometry,
            state: WindowState { is_focused: true },
            alive: true,
            initial_configure_sent: false,
        }
    }

    /// Whether this window wraps the given surface.
    pub fn surface_matches(&self, surface: u64) -> (r: bool)
        ensures
            r == (self.id == surface),
    {
        self.id == surface
    }

    /// Whether this window belongs to the given client.
    pub fn same_client_as(&self, client: u64) -> (r: bool)
        ensures
            r == (self.client == client),
    {
        self.client == client
    }
}

impl Output {
    pub open spec fn wf(self) -> bool {
        self.geometry.wf() && self.scale >= 1
    }
}

/// The 2D plane windows and outputs are mapped onto.
pub struct Space {
    pub windows: Vec<WindowElement>,
    pub outputs: Vec<Output>,
}

impl Space {
    /// Structural invariant: window ids unique and well formed, output ids
    /// unique and well formed, and the outputs' total width inside the
    /// model's coordinate range.
    pub open spec fn wf(self) -> bool {
        &&& forall|i: int, j: int|
            0 <= i < j < self.windows@.len() ==> self.windows@[i].id != self.windows@[j].id
        &&& forall|i: int| 0 <= i < self.windows@.len() ==> (#[trigger] self.windows@[i]).wf()
        &&& forall|i: int, j: int|
            0 <= i < j < self.outputs@.len() ==> self.outputs@[i].id != self.outputs@[j].id
        &&& forall|i: int| 0 <= i < self.outputs@.len() ==> (#[trigger] self.outputs@[i]).wf()
        &&& 0 <= total_width(self.outputs@) <= COORD_LIMIT as int
    }

    pub open spec fn contains_id(self, id: u64) -> bool {
        exists|i: int| 0 <= i < self.windows@.len() && self.windows@[i].id == id
    }

    /// The stack index of the window with the given id (meaningful when
    /// `contains_id` holds; unique under `wf`).
    pub open spec fn index_of_id(self, id: u64) -> int {
        choose|i: int| 0 <= i < self.windows@.len() && self.windows@[i].id == id
    }

    pub fn new() -> (s: Space)
        ensures
            s.windows@.len() == 0,
            s.outputs@.len() == 0,
            s.wf(),
    {
        let s = Space { windows: Vec::new(), outputs: Vec::new() };
        proof {
            assert(total_width(s.outputs@) == 0);
        }
        s
    }

    /// The stack position of the window with this id.
    pub fn position_of(&self, id: u64) -> (r: Option<usize>)
        ensures
            r matches Some(i) ==> 0 <= i < self.windows@.len() && self.windows@[i as int].id == id,
            r is None <==> !self.contains_id(id),
    {
        let mut idx: usize = 0;
        while idx < self.windows.len()
            invariant
                0 <= idx <= self.windows@.len(),
                forall|j: int| 0 <= j < idx ==> self.windows@[j].id != id,
            decreases self.windows@.len() - idx,
        {
            if self.windows[idx].id == id {
                return Some(idx);
            }
            idx = idx + 1;
        }
        None
    }

    /// Map a window at `location`, or move an already mapped window there.
    ///
    /// The window ends on top of the stacking order.  A window that was
    /// already mapped keeps its stored state; only its position changes.
    /// With `activate` the mapped window becomes the focused one and every
    /// other window loses the flag.
    pub fn map_element(&mut self, window: WindowElement, location: Point, activate: bool)
        requires
            old(self).wf(),
            window.wf(),
            location.wf(),
        ensures
            final(self).wf(),
            final(self).outputs@ == old(self).outputs@,
            final(self).contains_id(window.id),
            ({
                let present = old(self).contains_id(window.id);
                let oi = old(self).index_of_id(window.id);
                let entry = if present {
                    old(self).windows@[oi]
                } else {
                    window
                };
                let stripped = if present {
                    old(self).windows@.remove(oi)
                } else {
                    old(self).windows@
                };
                let base = if activate {
                    stripped.map_values(|w: WindowElement| with_focus(w, false))
                } else {
                    stripped
                };
                let placed = with_loc(
                    if activate {
                        with_focus(entry, true)
                    } else {
                        entry
                    },
                    location,
                );
                final(self).windows@ =~= base.push(placed)
            }),
    {
        let pos = self.position_of(window.id);
        let mut entry: WindowElement = match pos {
            Some(i) => self.windows.remove(i),
            None => window,
        };
        proof {
            if old(self).contains_id(window.id) {
                let i = pos->Some_0 as int;
                assert(i == old(self).index_of_id(window.id)) by {
                    let oi = old(self).index_of_id(window.id);
                    assert(0 <= oi < old(self).windows@.len() && old(self).windows@[oi].id
                        == window.id);
                }
            }
        }
        entry.geometry.loc = location;
        if activate {
            entry.state.is_focused = true;
            let ghost stripped = self.windows@;
            let ghost outs0 = self.outputs@;
            let mut k: usize = 0;
            while k < self.windows.len()
                invariant
                    0 <= k <= stripped.len(),
                    self.windows@.len() == stripped.len(),
                    self.outputs@ == outs0,
                    forall|j: int| 0 <= j < k ==> self.windows@[j] == with_focus(stripped[j], false),
                    forall|j: int| k <= j < stripped.len() ==> self.windows@[j] == stripped[j],
                decreases stripped.len() - k,
            {
                let mut w = self.windows[k];
                w.state.is_focused = false;
                self.windows.set(k, w);
                k = k + 1;
            }
            proof {
                assert(self.windows@ =~= stripped.map_values(
                    |w: WindowElement| with_focus(w, false),
                ));
            }
        }
        self.windows.push(entry);
        proof {
            let present = old(self).contains_id(window.id);
            let oi = old(self).index_of_id(window.id);
            let stripped = if present {
                old(self).windows@.remove(oi)
            } else {
                old(self).windows@
            };
            assert forall|j: int| 0 <= j < stripped.len() implies stripped[j].id != window.id by {
                if present {
                    if j < oi {
                        assert(stripped[j] == old(self).windows@[j]);
                    } else {
                        assert(stripped[j] == old(self).windows@[j + 1]);
                    }
                }
            }
            let last = self.windows@.len() - 1;
            assert(self.windows@[last].id == window.id);
        }
    }

    /// Move an already mapped window to the top of the stacking order; with
    /// `activate` it also becomes the focused one, exclusively.  Does
    /// nothing for an unmapped id.
    pub fn raise_element(&mut self, id: u64, activate: bool)
        requires
            old(self).wf(),
        ensures
            final(self).wf(),
            final(self).outputs@ == old(self).outputs@,
            !old(self).contains_id(id) ==> final(self).windows@ == old(self).windows@,
            old(self).contains_id(id) ==> ({
                let oi = old(self).index_of_id(id);
                let entry = old(self).windows@[oi];
                let stripped = old(self).windows@.remove(oi);
                let base = if activate {
                    stripped.map_values(|w: WindowElement| with_focus(w, false))
                } else {
                    stripped
                };
                let placed = if activate {
                    with_focus(entry, true)
                } else {
                    entry
                };
                final(self).windows@ =~= base.push(placed)
            }),
            old(self).contains_id(id) ==> final(self).contains_id(id) && final(self).windows@[
                final(self).windows@.len() - 1].id == id,
    {
        let pos = self.position_of(id);
        let i = match pos {
            Some(i) => i,
            None => {
                return ;
            },
        };
        proof {
            let oi = old(self).index_of_id(id);
            assert(0 <= oi < old(self).windows@.len() && old(self).windows@[oi].id == id);
            assert(i == oi);
        }
        let mut entry = self.windows.remove(i);
        if activate {
            entry.state.is_focused = true;
            let ghost stripped = self.windows@;
            let ghost outs0 = self.outputs@;
            let mut k: usize = 0;
            while k < self.windows.len()
                invariant
                    0 <= k <= stripped.len(),
                    self.windows@.len() == stripped.len(),
                    self.outputs@ == outs0,
                    forall|j: int| 0 <= j < k ==> self.windows@[j] == with_focus(stripped[j], false),
                    forall|j: int| k <= j < stripped.len() ==> self.windows@[j] == stripped[j],
                decreases stripped.len() - k,
            {
                let mut w = self.windows[k];
                w.state.is_focused = false;
                self.windows.set(k, w);
                k = k + 1;
            }
            proof {
                assert(self.windows@ =~= stripped.map_values(
                    |w: WindowElement| with_focus(w, false),
                ));
            }
        }
        self.windows.push(entry);
        proof {
            let oi = old(self).index_of_id(id);
            let stripped = old(self).windows@.remove(oi);
            assert forall|j: int| 0 <= j < stripped.len() implies stripped[j].id != id by {
                if j < oi {
                    assert(stripped[j] == old(self).windows@[j]);
                } else {
                    assert(stripped[j] == old(self).windows@[j + 1]);
                }
            }
            let last = self.windows@.len() - 1;
            assert(self.windows@[last].id == id);
        }
    }

    /// Remove the window with this id from the space.  Does nothing for an
    /// unmapped id.
    pub fn unmap(&mut self, id: u64)
        requires
            old(self).wf(),
        ensures
            final(self).wf(),
            final(self).outputs@ == old(self).outputs@,
            !final(self).contains_id(id),
            !old(self).contains_id(id) ==> final(self).windows@ == old(self).windows@,
            old(self).contains_id(id) ==> final(self).windows@ == old(self).windows@.remove(
                old(self).index_of_id(id),
            ),
    {
        let pos = self.position_of(id);
        let i = match pos {
            Some(i) => i,
            None => {
                return ;
            },
        };
        proof {
            let oi = old(self).index_of_id(id);
            assert(0 <= oi < old(self).windows@.len() && old(self).windows@[oi].id == id);
            assert(i == oi);
        }
        self.windows.remove(i);
        proof {
            let oi = old(self).index_of_id(id);
            let stripped = old(self).windows@.remove(oi);
            assert forall|j: int| 0 <= j < stripped.len() implies stripped[j].id != id by {
                if j < oi {
                    assert(stripped[j] == old(self).windows@[j]);
                } else {
                    assert(stripped[j] == old(self).windows@[j + 1]);
                }
            }
        }
    }
}

/// The window `w` with its liveness flag replaced.
pub open spec fn with_alive(w: WindowElement, alive: bool) -> WindowElement {
    WindowElement { alive, ..w }
}

/// The window `w` with the initial-configure flag set.
pub open spec fn with_configure_sent(w: WindowElement) -> WindowElement {
    WindowElement { initial_configure_sent: true, ..w }
}

/// The subsequence of windows whose surface is still alive, in stacking
/// order.
pub open spec fn alive_windows(ws: Seq<WindowElement>) -> Seq<WindowElement>
    decreases ws.len(),
{
    if ws.len() == 0 {
        Seq::empty()
    } else {
        let rest = alive_windows(ws.drop_first());
        if ws[0].alive {
            seq![ws[0]] + rest
        } else {
            rest
        }
    }
}

/// Every window that survives pruning is alive and comes from the stack
/// it was pruned from.
pub proof fn lemma_alive_windows_membership(ws: Seq<WindowElement>)
    ensures
        forall|k: int|
            0 <= k < alive_windows(ws).len() ==> (#[trigger] alive_windows(ws)[k]).alive,
        forall|k: int|
            0 <= k < alive_windows(ws).len() ==> exists|m: int|
                0 <= m < ws.len() && (#[trigger] alive_windows(ws)[k]) == #[trigger] ws[m],
    decreases ws.len(),
{
    if ws.len() > 0 {
        let rest = ws.drop_first();
        lemma_alive_windows_membership(rest);
        assert forall|k: int| 0 <= k < alive_windows(ws).len() implies exists|m: int|
            0 <= m < ws.len() && (#[trigger] alive_windows(ws)[k]) == #[trigger] ws[m] by {
            if ws[0].alive {
                if k == 0 {
                    assert(alive_windows(ws)[0] == ws[0]);
                } else {
                    let m = choose|m: int|
                        0 <= m < rest.len() && alive_windows(rest)[k - 1] == rest[m];
                    assert(rest[m] == ws[m + 1]);
                }
            } else {
                let m = choose|m: int| 0 <= m < rest.len() && alive_windows(rest)[k] == rest[m];
                assert(rest[m] == ws[m + 1]);
            }
        }
    }
}

/// Pruning keeps window ids unique.
pub proof fn lemma_alive_windows_unique(ws: Seq<WindowElement>)
    requires
        forall|i: int, j: int| 0 <= i < j < ws.len() ==> ws[i].id != ws[j].id,
    ensures
        forall|i: int, j: int|
            0 <= i < j < alive_windows(ws).len() ==> alive_windows(ws)[i].id != alive_windows(
                ws,
            )[j].id,
    decreases ws.len(),
{
    if ws.len() > 0 {
        let rest = ws.drop_first();
        assert(forall|i: int, j: int| 0 <= i < j < rest.len() ==> rest[i].id != rest[j].id);
        lemma_alive_windows_unique(rest);
        lemma_alive_windows_membership(rest);
        if ws[0].alive {
            assert forall|j: int| 0 < j < alive_windows(ws).len() implies alive_windows(
                ws,
            )[0].id != (#[trigger] alive_windows(ws)[j]).id by {
                let m = choose|m: int|
                    0 <= m < rest.len() && alive_windows(rest)[j - 1] == rest[m];
                assert(ws[m + 1] == rest[m]);
            }
        }
    }
}

/// Appending an output adds its width to the total.
pub proof fn lemma_total_width_push(outs: Seq<Output>, x: Output)
    ensures
        total_width(outs.push(x)) == total_width(outs) + x.geometry.size.w,
    decreases outs.len(),
{
    if outs.len() == 0 {
        assert(outs.push(x)[0] == x);
        assert(outs.push(x).drop_first() =~= Seq::<Output>::empty());
        assert(total_width(Seq::<Output>::empty()) == 0);
    } else {
        assert(outs.push(x)[0] == outs[0]);
        assert(outs.push(x).drop_first() =~= outs.drop_first().push(x));
        lemma_total_width_push(outs.drop_first(), x);
    }
}

/// Replacing an output swaps its width inside the total.
pub proof fn lemma_total_width_update(outs: Seq<Output>, j: int, x: Output)
    requires
        0 <= j < outs.len(),
    ensures
        total_width(outs.update(j, x)) == total_width(outs) - outs[j].geometry.size.w
            + x.geometry.size.w,
    decreases outs.len(),
{
    if j == 0 {
        assert(outs.update(0, x).drop_first() =~= outs.drop_first());
    } else {
        assert(outs.update(j, x).drop_first() =~= outs.drop_first().update(j - 1, x));
        lemma_total_width_update(outs.drop_first(), j - 1, x);
    }
}

/// Each output's width is part of the total, and the total of well-formed
/// outputs is never negative.
pub proof fn lemma_total_width_nonneg(outs: Seq<Output>)
    requires
        forall|i: int| 0 <= i < outs.len() ==> (#[trigger] outs[i]).wf(),
    ensures
        total_width(outs) >= 0,
    decreases outs.len(),
{
    if outs.len() > 0 {
        assert(forall|i: int| 0 <= i < outs.drop_first().len() ==> outs.drop_first()[i]
            == outs[i + 1]);
        lemma_total_width_nonneg(outs.drop_first());
    }
}

impl Space {
    /// The mapped windows in stacking order, bottom to top.
    pub fn elements(&self) -> (r: &Vec<WindowElement>)
        ensures
            r@ == self.windows@,
    {
        &self.windows
    }

    /// The mapped outputs.
    pub fn outputs(&self) -> (r: &Vec<Output>)
        ensures
            r@ == self.outputs@,
    {
        &self.outputs
    }

    /// The window with this id, if mapped.
    pub fn find_window(&self, id: u64) -> (r: Option<WindowElement>)
        requires
            self.wf(),
        ensures
            r is Some <==> self.contains_id(id),
            r matches Some(w) ==> exists|i: int|
                0 <= i < self.windows@.len() && #[trigger] self.windows@[i] == w && w.id == id,
    {
        match self.position_of(id) {
            Some(i) => Some(self.windows[i]),
            None => None,
        }
    }

    /// The topmost window whose border-inflated bounding box contains the
    /// point, together with the window's content location.  Hit-testing
    /// includes the border.
    pub fn element_under(&self, p: SubPoint, thickness: u8) -> (r: Option<(u64, Point)>)
        requires
            self.wf(),
        ensures
            r == spec_element_under(self.windows@, p, thickness),
            r is None <==> (forall|i: int|
                0 <= i < self.windows@.len() ==> !spec_inflate(
                    (#[trigger] self.windows@[i]).geometry,
                    thickness,
                ).spec_contains_sub(p)),
            r matches Some((id, loc)) ==> exists|i: int|
                {
                    &&& 0 <= i < self.windows@.len()
                    &&& (#[trigger] self.windows@[i]).id == id
                    &&& self.windows@[i].geometry.loc == loc
                    &&& spec_inflate(self.windows@[i].geometry, thickness).spec_contains_sub(p)
                    &&& forall|j: int|
                        i < j < self.windows@.len() ==> !spec_inflate(
                            (#[trigger] self.windows@[j]).geometry,
                            thickness,
                        ).spec_contains_sub(p)
                },
    {
        let mut idx: usize = self.windows.len();
        proof {
            assert(self.windows@.take(idx as int) =~= self.windows@);
        }
        while idx > 0
            invariant
                0 <= idx <= self.windows@.len(),
                self.wf(),
                spec_element_under(self.windows@.take(idx as int), p, thickness)
                    == spec_element_under(self.windows@, p, thickness),
                forall|j: int|
                    idx <= j < self.windows@.len() ==> !spec_inflate(
                        (#[trigger] self.windows@[j]).geometry,
                        thickness,
                    ).spec_contains_sub(p),
            decreases idx,
        {
            idx = idx - 1;
            let w = self.windows[idx];
            proof {
                assert(self.windows@[idx as int].wf());
                let taken = self.windows@.take(idx as int + 1);
                assert(taken[taken.len() - 1] == self.windows@[idx as int]);
                assert(taken.drop_last() =~= self.windows@.take(idx as int));
            }
            let bbox = w.geometry.inflate(thickness);
            if bbox.contains_sub(p) {
                return Some((w.id, w.geometry.loc));
            }
        }
        proof {
            assert(self.windows@.take(0) =~= Seq::<WindowElement>::empty());
        }
        None
    }

    /// The border-inflated geometry of the window with this id.
    pub fn element_geometry(&self, id: u64, thickness: u8) -> (r: Option<Rect>)
        requires
            self.wf(),
        ensures
            r is Some <==> self.contains_id(id),
            r matches Some(g) ==> exists|i: int|
                0 <= i < self.windows@.len() && (#[trigger] self.windows@[i]).id == id && g
                    == spec_inflate(self.windows@[i].geometry, thickness),
    {
        match self.position_of(id) {
            Some(i) => {
                proof {
                    assert(self.windows@[i as int].wf());
                }
                Some(self.windows[i].geometry.inflate(thickness))
            },
            None => None,
        }
    }

    /// Give the focus flag to `target` alone: the flag of every mapped
    /// window becomes "my id is the target".  With `None`, every flag is
    /// cleared.
    pub fn set_focus_exclusive(&mut self, target: Option<u64>)
        requires
            old(self).wf(),
        ensures
            final(self).wf(),
            final(self).outputs@ == old(self).outputs@,
            final(self).windows@.len() == old(self).windows@.len(),
            forall|k: int|
                0 <= k < old(self).windows@.len() ==> final(self).windows@[k] == with_focus(
                    old(self).windows@[k],
                    target == Some(old(self).windows@[k].id),
                ),
    {
        let ghost ws0 = self.windows@;
        let ghost outs0 = self.outputs@;
        let mut k: usize = 0;
        while k < self.windows.len()
            invariant
                0 <= k <= ws0.len(),
                self.windows@.len() == ws0.len(),
                self.outputs@ == outs0,
                forall|j: int|
                    0 <= j < k ==> self.windows@[j] == with_focus(
                        ws0[j],
                        target == Some(ws0[j].id),
                    ),
                forall|j: int| k <= j < ws0.len() ==> self.windows@[j] == ws0[j],
            decreases ws0.len() - k,
        {
            let mut w = self.windows[k];
            let focused = match target {
                Some(id) => w.id == id,
                None => false,
            };
            w.state.is_focused = focused;
            self.windows.set(k, w);
            k = k + 1;
        }
    }

    /// Set one window's focus flag, leaving the rest of the space alone.
    pub fn set_focused(&mut self, id: u64, focused: bool)
        requires
            old(self).wf(),
        ensures
            final(self).wf(),
            final(self).outputs@ == old(self).outputs@,
            !old(self).contains_id(id) ==> final(self).windows@ == old(self).windows@,
            old(self).contains_id(id) ==> final(self).windows@ == old(self).windows@.update(
                old(self).index_of_id(id),
                with_focus(old(self).windows@[old(self).index_of_id(id)], focused),
            ),
    {
        let pos = self.position_of(id);
        if let Some(i) = pos {
            proof {
                let oi = old(self).index_of_id(id);
                assert(0 <= oi < old(self).windows@.len() && old(self).windows@[oi].id == id);
                assert(i == oi);
            }
            let mut w = self.windows[i];
            w.state.is_focused = focused;
            self.windows.set(i, w);
        }
    }

    /// Record whether a window's underlying surface is still alive.
    pub fn set_alive(&mut self, id: u64, alive: bool)
        requires
            old(self).wf(),
        ensures
            final(self).wf(),
            final(self).outputs@ == old(self).outputs@,
            !old(self).contains_id(id) ==> final(self).windows@ == old(self).windows@,
            old(self).contains_id(id) ==> final(self).windows@ == old(self).windows@.update(
                old(self).index_of_id(id),
                with_alive(old(self).windows@[old(self).index_of_id(id)], alive),
            ),
    {
        let pos = self.position_of(id);
        if let Some(i) = pos {
            proof {
                let oi = old(self).index_of_id(id);
                assert(0 <= oi < old(self).windows@.len() && old(self).windows@[oi].id == id);
                assert(i == oi);
            }
            let mut w = self.windows[i];
            w.alive = alive;
            self.windows.set(i, w);
        }
    }

    /// Record that the initial configure went out for a window's surface.
    pub fn mark_initial_configure_sent(&mut self, id: u64)
        requires
            old(self).wf(),
        ensures
            final(self).wf(),
            final(self).outputs@ == old(self).outputs@,
            !old(self).contains_id(id) ==> final(self).windows@ == old(self).windows@,
            old(self).contains_id(id) ==> final(self).windows@ == old(self).windows@.update(
                old(self).index_of_id(id),
                with_configure_sent(old(self).windows@[old(self).index_of_id(id)]),
            ),
    {
        let pos = self.position_of(id);
        if let Some(i) = pos {
            proof {
                let oi = old(self).index_of_id(id);
                assert(0 <= oi < old(self).windows@.len() && old(self).windows@[oi].id == id);
                assert(i == oi);
            }
            let mut w = self.windows[i];
            w.initial_configure_sent = true;
            self.windows.set(i, w);
        }
    }

    /// Prune every window whose underlying surface died, keeping the
    /// stacking order of the survivors.  Called once per event-loop
    /// iteration, never mid-dispatch.
    pub fn refresh(&mut self)
        requires
            old(self).wf(),
        ensures
            final(self).wf(),
            final(self).outputs@ == old(self).outputs@,
            final(self).windows@ == alive_windows(old(self).windows@),
    {
        let ghost ws0 = self.windows@;
        let mut kept: Vec<WindowElement> = Vec::new();
        proof {
            assert(ws0.skip(0) =~= ws0);
            assert(kept@ + alive_windows(ws0) =~= alive_windows(ws0));
        }
        let mut k: usize = 0;
        while k < self.windows.len()
            invariant
                0 <= k <= ws0.len(),
                self.windows@ == ws0,
                kept@ + alive_windows(ws0.skip(k as int)) == alive_windows(ws0),
            decreases ws0.len() - k,
        {
            proof {
                let tail = ws0.skip(k as int);
                assert(tail[0] == ws0[k as int]);
                assert(tail.drop_first() =~= ws0.skip(k as int + 1));
            }
            let w = self.windows[k];
            if w.alive {
                kept.push(w);
                proof {
                    assert(kept@ + alive_windows(ws0.skip(k as int + 1)) =~= alive_windows(ws0));
                }
            } else {
                proof {
                    assert(kept@ + alive_windows(ws0.skip(k as int + 1)) =~= alive_windows(ws0));
                }
            }
            k = k + 1;
        }
        proof {
            assert(ws0.skip(ws0.len() as int) =~= Seq::<WindowElement>::empty());
            assert(kept@ + alive_windows(ws0.skip(ws0.len() as int)) =~= kept@);
        }
        self.windows = kept;
        proof {
            lemma_alive_windows_unique(ws0);
            lemma_alive_windows_membership(ws0);
            assert forall|i: int| 0 <= i < self.windows@.len() implies (
            #[trigger] self.windows@[i]).wf() by {
                let m = choose|m: int| 0 <= m < ws0.len() && alive_windows(ws0)[i] == ws0[m];
                assert(ws0[m].wf());
            }
        }
    }

    /// Map an output, or update the region of an already mapped one.
    #[verifier::loop_isolation(false)]
    pub fn map_output(&mut self, output: Output)
        requires
            old(self).wf(),
            output.wf(),
            total_width(old(self).outputs@) + output.geometry.size.w <= COORD_LIMIT,
        ensures
            final(self).wf(),
            final(self).windows@ == old(self).windows@,
            ({
                let existing = exists|j: int|
                    0 <= j < old(self).outputs@.len() && old(self).outputs@[j].id == output.id;
                if existing {
                    final(self).outputs@ == old(self).outputs@.update(
                        choose|j: int|
                            0 <= j < old(self).outputs@.len() && old(self).outputs@[j].id
                                == output.id,
                        output,
                    )
                } else {
                    final(self).outputs@ == old(self).outputs@.push(output)
                }
            }),
    {
        let mut j: usize = 0;
        while j < self.outputs.len()
            invariant
                0 <= j <= self.outputs@.len(),
                self == old(self),
                self.wf(),
                total_width(self.outputs@) + output.geometry.size.w <= COORD_LIMIT,
                forall|m: int| 0 <= m < j ==> self.outputs@[m].id != output.id,
            decreases self.outputs@.len() - j,
        {
            if self.outputs[j].id == output.id {
                proof {
                    let outs0 = old(self).outputs@;
                    let w = choose|m: int| 0 <= m < outs0.len() && outs0[m].id == output.id;
                    assert(w == j as int);
                    lemma_total_width_update(outs0, j as int, output);
                    lemma_remove_width(outs0, j as int);
                    assert forall|i: int| 0 <= i < outs0.remove(j as int).len() implies (
                    #[trigger] outs0.remove(j as int)[i]).wf() by {
                        if i < j as int {
                            assert(outs0.remove(j as int)[i] == outs0[i]);
                        } else {
                            assert(outs0.remove(j as int)[i] == outs0[i + 1]);
                        }
                    }
                    lemma_total_width_nonneg(outs0.remove(j as int));
                }
                self.outputs.set(j, output);
                proof {
                    let outs0 = old(self).outputs@;
                    let outs1 = self.outputs@;
                    assert forall|a: int| 0 <= a < outs1.len() implies (#[trigger] outs1[a]).wf()
                    by {
                        if a == j as int {
                            assert(outs1[a] == output);
                        } else {
                            assert(outs1[a] == outs0[a]);
                            assert(outs0[a].wf());
                        }
                    }
                    assert forall|a: int, b: int| 0 <= a < b < outs1.len() implies outs1[a].id
                        != outs1[b].id by {
                        assert(outs0[a].id != outs0[b].id);
                        if a == j as int {
                            assert(outs1[b] == outs0[b]);
                        } else if b == j as int {
                            assert(outs1[a] == outs0[a]);
                        }
                    }
                }
                return ;
            }
            j = j + 1;
        }
        proof {
            lemma_total_width_push(old(self).outputs@, output);
            lemma_total_width_nonneg(old(self).outputs@);
        }
        self.outputs.push(output);
    }

    /// The total width spanned by all outputs.
    pub fn outputs_total_width(&self) -> (w: i64)
        requires
            self.wf(),
        ensures
            w == total_width(self.outputs@),
            0 <= w <= COORD_LIMIT,
    {
        proof {
            lemma_total_width_nonneg(self.outputs@);
        }
        let mut acc: i64 = 0;
        proof {
            assert(self.outputs@.skip(0) =~= self.outputs@);
        }
        let mut k: usize = 0;
        while k < self.outputs.len()
            invariant
                0 <= k <= self.outputs@.len(),
                self.wf(),
                acc + total_width(self.outputs@.skip(k as int)) == total_width(self.outputs@),
                0 <= acc,
                total_width(self.outputs@) <= COORD_LIMIT,
            decreases self.outputs@.len() - k,
        {
            proof {
                let tail = self.outputs@.skip(k as int);
                assert(tail[0] == self.outputs@[k as int]);
                assert(tail.drop_first() =~= self.outputs@.skip(k as int + 1));
                assert forall|i: int| 0 <= i < tail.drop_first().len() implies (
                #[trigger] tail.drop_first()[i]).wf() by {
                    assert(tail.drop_first()[i] == self.outputs@[k as int + 1 + i]);
                }
                lemma_total_width_nonneg(tail.drop_first());
            }
            acc = acc + self.outputs[k].geometry.size.w;
            k = k + 1;
        }
        proof {
            assert(self.outputs@.skip(self.outputs@.len() as int)
                =~= Seq::<Output>::empty());
        }
        acc
    }

    /// The region of the output with this id.
    pub fn output_geometry(&self, id: u64) -> (r: Option<Rect>)
        ensures
            r is Some <==> exists|i: int|
                0 <= i < self.outputs@.len() && (#[trigger] self.outputs@[i]).id == id,
            r matches Some(g) ==> exists|i: int|
                0 <= i < self.outputs@.len() && (#[trigger] self.outputs@[i]).id == id
                    && self.outputs@[i].geometry == g,
    {
        let mut j: usize = 0;
        while j < self.outputs.len()
            invariant
                0 <= j <= self.outputs@.len(),
                forall|m: int| 0 <= m < j ==> self.outputs@[m].id != id,
            decreases self.outputs@.len() - j,
        {
            if self.outputs[j].id == id {
                return Some(self.outputs[j].geometry);
            }
            j = j + 1;
        }
        None
    }

    /// The first output whose region contains the column `x` at the top
    /// row, the way hit-testing for vertical clamping consults outputs.
    pub fn output_under_x(&self, x: i64) -> (r: Option<usize>)
        requires
            self.wf(),
        ensures
            r matches Some(i) ==> 0 <= i < self.outputs@.len() && self.outputs@[
                i as int].geometry.spec_contains_pt(Point { x, y: 0 }) && forall|j: int|
                0 <= j < i ==> !(#[trigger] self.outputs@[j]).geometry.spec_contains_pt(
                    Point { x, y: 0 },
                ),
            r is None <==> (forall|j: int|
                0 <= j < self.outputs@.len() ==> !(#[trigger] self.outputs@[j]).geometry.spec_contains_pt(
                    Point { x, y: 0 },
                )),
    {
        let mut j: usize = 0;
        while j < self.outputs.len()
            invariant
                0 <= j <= self.outputs@.len(),
                self.wf(),
                forall|m: int|
                    0 <= m < j ==> !(#[trigger] self.outputs@[m]).geometry.spec_contains_pt(
                        Point { x, y: 0 },
                    ),
            decreases self.outputs@.len() - j,
        {
            if self.outputs[j].geometry.contains_pt(Point { x, y: 0 }) {
                return Some(j);
            }
            j = j + 1;
        }
        None
    }
}

/// When the point lies inside exactly one window's border-inflated box,
/// hit-testing selects that window, whatever its place in the stack.
pub proof fn lemma_element_under_unique(ws: Seq<WindowElement>, p: SubPoint, thickness: u8, i: int)
    requires
        0 <= i < ws.len(),
        spec_inflate(ws[i].geometry, thickness).spec_contains_sub(p),
        forall|j: int|
            0 <= j < ws.len() && j != i ==> !spec_inflate(
                (#[trigger] ws[j]).geometry,
                thickness,
            ).spec_contains_sub(p),
    ensures
        spec_element_under(ws, p, thickness) == Some((ws[i].id, ws[i].geometry.loc)),
    decreases ws.len(),
{
    if i < ws.len() - 1 {
        let shorter = ws.drop_last();
        assert(forall|j: int| 0 <= j < shorter.len() ==> shorter[j] == ws[j]);
        lemma_element_under_unique(shorter, p, thickness, i);
    }
}

/// Removing an output takes its width out of the total.
pub proof fn lemma_remove_width(outs: Seq<Output>, j: int)
    requires
        0 <= j < outs.len(),
    ensures
        total_width(outs.remove(j)) == total_width(outs) - outs[j].geometry.size.w,
    decreases outs.len(),
{
    if j == 0 {
        assert(outs.remove(0) =~= outs.drop_first());
    } else {
        assert(outs.remove(j).drop_first() =~= outs.drop_first().remove(j - 1));
        lemma_remove_width(outs.drop_first(), j - 1);
    }
}

/// In a well-formed stack a present id occurs exactly once; an absent id,
/// never.  This is the exactly-once guarantee for a window between its map
/// and its unmap.
pub proof fn lemma_window_mapped_once(ws: Seq<WindowElement>, id: u64)
    requires
        forall|i: int, j: int| 0 <= i < j < ws.len() ==> ws[i].id != ws[j].id,
    ensures
        (exists|i: int| 0 <= i < ws.len() && ws[i].id == id) ==> count_id(ws, id) == 1,
        !(exists|i: int| 0 <= i < ws.len() && ws[i].id == id) ==> count_id(ws, id) == 0,
    decreases ws.len(),
{
    if ws.len() > 0 {
        let rest = ws.drop_first();
        assert(forall|i: int, j: int| 0 <= i < j < rest.len() ==> rest[i].id != rest[j].id);
        lemma_window_mapped_once(rest, id);
        if ws[0].id == id {
            assert(!(exists|i: int| 0 <= i < rest.len() && rest[i].id == id)) by {
                assert(forall|i: int| 0 <= i < rest.len() ==> rest[i] == ws[i + 1]);
            }
        } else {
            if exists|i: int| 0 <= i < ws.len() && ws[i].id == id {
                let i = choose|i: int| 0 <= i < ws.len() && ws[i].id == id;
                assert(rest[i - 1] == ws[i]);
            }
            if exists|i: int| 0 <= i < rest.len() && rest[i].id == id {
                let i = choose|i: int| 0 <= i < rest.len() && rest[i].id == id;
                assert(ws[i + 1] == rest[i]);
            }
        }
    }
}

} // verus!
