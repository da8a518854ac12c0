//! The render pipeline model: per-frame visual elements (cursor, borders,
//! window content) and damage computed against the previous frame.
//!
//! Elements are listed bottom to top.  Each window contributes its
//! focus-colored border beneath its own content; the cursor is composed on
//! top by the caller.

use vstd::prelude::*;

use crate::geometry::{spec_inflate, Point, Rect, Size};
use crate::space::WindowElement;
use crate::state::WallyState;

verus! {

/// What the pointer currently shows: nothing, the named system cursor, or
/// a client-supplied cursor surface with its hotspot.
#[derive(Clone, Copy, Debug, PartialEq, Eq, Structural)]
pub enum CursorImageStatus {
    Hidden,
    Named,
    Surface { surface: u64, hotspot: Point, alive: bool },
}

/// One visual element of a composed frame.
#[derive(Clone, Copy, Debug, PartialEq, Eq, Structural)]
pub enum RenderElement {
    /// The cached system cursor buffer.
    CursorBuffer { geometry: Rect },
    /// A client-supplied cursor surface.
    CursorSurface { surface: u64, geometry: Rect },
    /// A window's focus-indicating border.
    Border { geometry: Rect, color: u32, thickness: u8 },
    /// A window's own content.
    WindowContent { window: u64, geometry: Rect },
}

/// The screen region an element occupies.
pub open spec fn spec_element_rect(e: RenderElement) -> Rect {
    match e {
        RenderElement::CursorBuffer { geometry } => geometry,
        RenderElement::CursorSurface { geometry, .. } => geometry,
        RenderElement::Border { geometry, .. } => geometry,
        RenderElement::WindowContent { geometry, .. } => geometry,
    }
}

pub fn element_rect(e: &RenderElement) -> (r: Rect)
    ensures
        r == spec_element_rect(*e),
{
    match e {
        RenderElement::CursorBuffer { geometry } => *geometry,
        RenderElement::CursorSurface { geometry, .. } => *geometry,
        RenderElement::Border { geometry, .. } => *geometry,
        RenderElement::WindowContent { geometry, .. } => *geometry,
    }
}

/// The red, green and blue channels of a packed `0xRRGGBB` color.
pub fn color_channels(color: u32) -> (r: (u32, u32, u32))
    ensures
        r.0 == (color >> 16) & 255,
        r.1 == (color >> 8) & 255,
        r.2 == color & 255,
{
    ((color >> 16) & 255, (color >> 8) & 255, color & 255)
}

/// The cursor visual: the pointer element resolves to nothing, a cached
/// buffer, or a client surface.
pub struct PointerElement {
    /// The cached system cursor pixel buffer, by size, once loaded.
    pub buffer: Option<Size>,
    pub status: CursorImageStatus,
}

impl Default for PointerElement {
    fn default() -> (r: PointerElement)
        ensures
            r.buffer is None,
            r.status == CursorImageStatus::Named,
    {
        PointerElement { buffer: None, status: CursorImageStatus::Named }
    }
}

impl PointerElement {
    pub fn set_status(&mut self, status: CursorImageStatus)
        ensures
            final(self).status == status,
            final(self).buffer == old(self).buffer,
    {
        self.status = status;
    }

    pub fn set_buffer(&mut self, size: Size)
        ensures
            final(self).buffer == Some(size),
            final(self).status == old(self).status,
    {
        self.buffer = Some(size);
    }

    /// The cursor elements at a resolved location: nothing while hidden or
    /// while the system buffer is missing, the buffer for a named cursor,
    /// or the client surface.
    pub fn render_elements(&self, location: Point) -> (r: Vec<RenderElement>)
        ensures
            r@ == spec_pointer_elements(*self, location),
            self.status == CursorImageStatus::Hidden ==> r@ == Seq::<RenderElement>::empty(),
            self.status == CursorImageStatus::Named && self.buffer is None ==> r@ == Seq::<
                RenderElement,
            >::empty(),
            self.status == CursorImageStatus::Named ==> (self.buffer matches Some(size) ==> r@
                =~= seq![
                (RenderElement::CursorBuffer { geometry: Rect { loc: location, size } }),
            ]),
            self.status matches CursorImageStatus::Surface { surface, .. } ==> r@ =~= seq![
                (RenderElement::CursorSurface {
                    surface,
                    geometry: Rect { loc: location, size: Size { w: 0, h: 0 } },
                }),
            ],
    {
        match self.status {
            CursorImageStatus::Hidden => Vec::new(),
            CursorImageStatus::Named => {
                match self.buffer {
                    None => Vec::new(),
                    Some(size) => {
                        let mut v: Vec<RenderElement> = Vec::new();
                        v.push(RenderElement::CursorBuffer { geometry: Rect { loc: location, size } });
                        v
                    },
                }
            },
            CursorImageStatus::Surface { surface, .. } => {
                let mut v: Vec<RenderElement> = Vec::new();
                v.push(
                    RenderElement::CursorSurface {
                        surface,
                        geometry: Rect { loc: location, size: Size { w: 0, h: 0 } },
                    },
                );
                v
            },
        }
    }
}

/// The cursor elements the pointer resolves to at a location.
pub open spec fn spec_pointer_elements(p: PointerElement, location: Point) -> Seq<RenderElement> {
    match p.status {
        CursorImageStatus::Hidden => Seq::empty(),
        CursorImageStatus::Named => match p.buffer {
            None => Seq::empty(),
            Some(size) => seq![
                (RenderElement::CursorBuffer { geometry: Rect { loc: location, size } }),
            ],
        },
        CursorImageStatus::Surface { surface, .. } => seq![
            (RenderElement::CursorSurface {
                surface,
                geometry: Rect { loc: location, size: Size { w: 0, h: 0 } },
            }),
        ],
    }
}

/// The elements one window contributes: its border, in the focused or
/// unfocused color, painted beneath the window's own content.
pub open spec fn spec_window_elements(
    w: WindowElement,
    thickness: u8,
    color_focused: u32,
    color_unfocused: u32,
) -> Seq<RenderElement> {
    seq![
        (RenderElement::Border {
            geometry: spec_inflate(w.geometry, thickness),
            color: if w.state.is_focused {
                color_focused
            } else {
                color_unfocused
            },
            thickness,
        }),
        (RenderElement::WindowContent { window: w.id, geometry: w.geometry }),
    ]
}

/// All the elements a window stack contributes, bottom to top.
pub open spec fn spec_stack_elements(
    ws: Seq<WindowElement>,
    thickness: u8,
    color_focused: u32,
    color_unfocused: u32,
) -> Seq<RenderElement>
    decreases ws.len(),
{
    if ws.len() == 0 {
        Seq::empty()
    } else {
        spec_window_elements(ws[0], thickness, color_focused, color_unfocused)
            + spec_stack_elements(ws.drop_first(), thickness, color_focused, color_unfocused)
    }
}

/// The border and content elements for one window.
pub fn window_render_elements(
    w: &WindowElement,
    thickness: u8,
    color_focused: u32,
    color_unfocused: u32,
) -> (r: Vec<RenderElement>)
    requires
        w.wf(),
    ensures
        r@ == spec_window_elements(*w, thickness, color_focused, color_unfocused),
{
    let border_geometry = w.geometry.inflate(thickness);
    let color = if w.state.is_focused {
        color_focused
    } else {
        color_unfocused
    };
    let mut v: Vec<RenderElement> = Vec::new();
    v.push(RenderElement::Border { geometry: border_geometry, color, thickness });
    v.push(RenderElement::WindowContent { window: w.id, geometry: w.geometry });
    proof {
        assert(v@ =~= spec_window_elements(*w, thickness, color_focused, color_unfocused));
    }
    v
}

/// The elements of every mapped window, bottom to top.
pub fn stack_render_elements(
    ws: &Vec<WindowElement>,
    thickness: u8,
    color_focused: u32,
    color_unfocused: u32,
) -> (r: Vec<RenderElement>)
    requires
        forall|i: int| 0 <= i < ws@.len() ==> (#[trigger] ws@[i]).wf(),
    ensures
        r@ == spec_stack_elements(ws@, thickness, color_focused, color_unfocused),
{
    let mut acc: Vec<RenderElement> = Vec::new();
    proof {
        assert(ws@.skip(0) =~= ws@);
        assert(acc@ + spec_stack_elements(ws@, thickness, color_focused, color_unfocused)
            =~= spec_stack_elements(ws@, thickness, color_focused, color_unfocused));
    }
    let mut k: usize = 0;
    while k < ws.len()
        invariant
            0 <= k <= ws@.len(),
            forall|i: int| 0 <= i < ws@.len() ==> (#[trigger] ws@[i]).wf(),
            acc@ + spec_stack_elements(ws@.skip(k as int), thickness, color_focused, color_unfocused)
                == spec_stack_elements(ws@, thickness, color_focused, color_unfocused),
        decreases ws@.len() - k,
    {
        proof {
            let tail = ws@.skip(k as int);
            assert(tail[0] == ws@[k as int]);
            assert(tail.drop_first() =~= ws@.skip(k as int + 1));
        }
        let mut pair = window_render_elements(&ws[k], thickness, color_focused, color_unfocused);
        let ghost acc0 = acc@;
        acc.append(&mut pair);
        proof {
            assert(acc@ =~= acc0 + spec_window_elements(
                ws@[k as int],
                thickness,
                color_focused,
                color_unfocused,
            ));
            assert(acc@ + spec_stack_elements(
                ws@.skip(k as int + 1),
                thickness,
                color_focused,
                color_unfocused,
            ) =~= spec_stack_elements(ws@, thickness, color_focused, color_unfocused));
        }
        k = k + 1;
    }
    proof {
        assert(ws@.skip(ws@.len() as int) =~= Seq::<WindowElement>::empty());
        assert(acc@ + spec_stack_elements(
            ws@.skip(ws@.len() as int),
            thickness,
            color_focused,
            color_unfocused,
        ) =~= acc@);
    }
    acc
}

/// The damage two frames differ by at one element position.
pub open spec fn spec_damage_at(
    prev: Seq<RenderElement>,
    cur: Seq<RenderElement>,
    i: int,
) -> Seq<Rect> {
    if i < prev.len() && i < cur.len() {
        if prev[i] == cur[i] {
            Seq::empty()
        } else {
            seq![spec_element_rect(prev[i]), spec_element_rect(cur[i])]
        }
    } else if i < prev.len() {
        seq![spec_element_rect(prev[i])]
    } else if i < cur.len() {
        seq![spec_element_rect(cur[i])]
    } else {
        Seq::empty()
    }
}

/// The damage accumulated over the first `n` element positions.
pub open spec fn spec_damage_upto(
    prev: Seq<RenderElement>,
    cur: Seq<RenderElement>,
    n: int,
) -> Seq<Rect>
    decreases n,
{
    if n <= 0 {
        Seq::empty()
    } else {
        spec_damage_upto(prev, cur, n - 1) + spec_damage_at(prev, cur, n - 1)
    }
}

/// The region list invalidated between two frames: at every position where
/// the element lists differ, both the old and the new element's region.
pub open spec fn spec_damage_diff(prev: Seq<RenderElement>, cur: Seq<RenderElement>) -> Seq<Rect> {
    spec_damage_upto(prev, cur, vstd::math::max(prev.len() as int, cur.len() as int))
}

/// Rendering the same element list twice invalidates nothing.
pub proof fn lemma_damage_idempotent(elements: Seq<RenderElement>)
    ensures
        spec_damage_diff(elements, elements) == Seq::<Rect>::empty(),
{
    lemma_damage_upto_same(elements, elements.len() as int);
}

proof fn lemma_damage_upto_same(elements: Seq<RenderElement>, n: int)
    requires
        n <= elements.len(),
    ensures
        spec_damage_upto(elements, elements, n) == Seq::<Rect>::empty(),
    decreases n,
{
    if n > 0 {
        lemma_damage_upto_same(elements, n - 1);
        assert(spec_damage_upto(elements, elements, n) =~= Seq::<Rect>::empty());
    }
}

/// Damage tracking state for one output: the element list of the last
/// composed frame.
pub struct OutputDamageTracker {
    pub last: Option<Vec<RenderElement>>,
}

impl OutputDamageTracker {
    pub fn new() -> (t: OutputDamageTracker)
        ensures
            t.last is None,
    {
        OutputDamageTracker { last: None }
    }

    /// Compute the damage for a frame from the previous buffer's age.
    ///
    /// An age of 1 means the back buffer holds the previous frame, so only
    /// the changed regions are invalidated; any other age (or a missing
    /// history) forces full damage over the output.  The submitted element
    /// list becomes the new history.
    pub fn render_output(
        &mut self,
        elements: &Vec<RenderElement>,
        age: usize,
        output_geometry: Rect,
    ) -> (damage: Vec<Rect>)
        ensures
            final(self).last matches Some(l) && l@ == elements@,
            (age != 1 || old(self).last is None) ==> damage@ == seq![output_geometry],
            age == 1 ==> (old(self).last matches Some(prev) ==> damage@ == spec_damage_diff(
                prev@,
                elements@,
            )),
    {
        let usable = age == 1 && self.last.is_some();
        let damage: Vec<Rect> = if usable {
            let prev = match &self.last {
                Some(prev) => prev,
                None => unreached(),
            };
            diff_damage(prev, elements)
        } else {
            let mut v: Vec<Rect> = Vec::new();
            v.push(output_geometry);
            proof {
                assert(v@ =~= seq![output_geometry]);
            }
            v
        };
        self.last = Some(copy_elements(elements));
        damage
    }
}

/// A by-value copy of an element list.
fn copy_elements(v: &Vec<RenderElement>) -> (r: Vec<RenderElement>)
    ensures
        r@ == v@,
{
    let mut r: Vec<RenderElement> = Vec::new();
    let mut i: usize = 0;
    while i < v.len()
        invariant
            0 <= i <= v@.len(),
            r@ == v@.take(i as int),
        decreases v@.len() - i,
    {
        r.push(v[i]);
        proof {
            assert(r@ =~= v@.take(i as int + 1));
        }
        i = i + 1;
    }
    proof {
        assert(v@.take(v@.len() as int) =~= v@);
    }
    r
}

/// The changed regions between two element lists, position by position.
fn diff_damage(prev: &Vec<RenderElement>, cur: &Vec<RenderElement>) -> (damage: Vec<Rect>)
    ensures
        damage@ == spec_damage_diff(prev@, cur@),
{
    let n = if prev.len() > cur.len() {
        prev.len()
    } else {
        cur.len()
    };
    let mut damage: Vec<Rect> = Vec::new();
    let mut i: usize = 0;
    while i < n
        invariant
            0 <= i <= n,
            n == vstd::math::max(prev@.len() as int, cur@.len() as int),
            damage@ == spec_damage_upto(prev@, cur@, i as int),
        decreases n - i,
    {
        let ghost d0 = damage@;
        if i < prev.len() && i < cur.len() {
            if !element_eq(&prev[i], &cur[i]) {
                damage.push(element_rect(&prev[i]));
                damage.push(element_rect(&cur[i]));
            }
        } else if i < prev.len() {
            damage.push(element_rect(&prev[i]));
        } else {
            damage.push(element_rect(&cur[i]));
        }
        proof {
            assert(damage@ =~= d0 + spec_damage_at(prev@, cur@, i as int));
            assert(damage@ =~= spec_damage_upto(prev@, cur@, i as int + 1));
        }
        i = i + 1;
    }
    damage
}

/// Structural equality of two render elements.
fn element_eq(a: &RenderElement, b: &RenderElement) -> (r: bool)
    ensures
        r == (a == b),
{
    match (a, b) {
        (
            RenderElement::CursorBuffer { geometry: g1 },
            RenderElement::CursorBuffer { geometry: g2 },
        ) => g1 == g2,
        (
            RenderElement::CursorSurface { surface: s1, geometry: g1 },
            RenderElement::CursorSurface { surface: s2, geometry: g2 },
        ) => s1 == s2 && g1 == g2,
        (
            RenderElement::Border { geometry: g1, color: c1, thickness: t1 },
            RenderElement::Border { geometry: g2, color: c2, thickness: t2 },
        ) => g1 == g2 && c1 == c2 && t1 == t2,
        (
            RenderElement::WindowContent { window: w1, geometry: g1 },
            RenderElement::WindowContent { window: w2, geometry: g2 },
        ) => w1 == w2 && g1 == g2,
        _ => false,
    }
}

/// How a frame's submission ended, and what the run loop should do.
#[derive(Clone, Copy, Debug, PartialEq, Eq, Structural)]
pub enum SwapBuffersError {
    /// The rendering context is lost: fatal, the run loop must stop.
    ContextLost,
    /// A transient failure: log and retry on the next tick.
    Temporary,
}

/// The decision taken after a render pass.
#[derive(Clone, Copy, Debug, PartialEq, Eq, Structural)]
pub enum RenderOutcome {
    /// The frame was submitted; send frame callbacks.
    Presented,
    /// The frame was skipped this tick; continue.
    Skipped,
    /// Rendering is broken for good; stop the run loop.
    Fatal,
}

impl WallyState {
    /// Assemble the full ordered element list for one frame: per window,
    /// bottom to top, the focus-colored border beneath the window content;
    /// the cursor visual composed on top of everything.
    pub fn frame_elements(&self, pointer: &PointerElement, cursor_location: Point) -> (r: Vec<
        RenderElement,
    >)
        requires
            self.wf(),
        ensures
            r@ == spec_stack_elements(
                self.space.windows@,
                self.config.border_thickness,
                self.config.border_color_focused,
                self.config.border_color_unfocused,
            ) + spec_pointer_elements(*pointer, cursor_location),
    {
        let mut elements = stack_render_elements(
            self.space.elements(),
            self.config.border_thickness,
            self.config.border_color_focused,
            self.config.border_color_unfocused,
        );
        let mut cursor = pointer.render_elements(cursor_location);
        elements.append(&mut cursor);
        proof {
            assert(elements@ =~= spec_stack_elements(
                self.space.windows@,
                self.config.border_thickness,
                self.config.border_color_focused,
                self.config.border_color_unfocused,
            ) + spec_pointer_elements(*pointer, cursor_location));
        }
        elements
    }

    /// Classify the end of a render pass and decide what the run loop does
    /// next.  On success the frame counts as presented and every mapped
    /// window receives a frame callback (their ids, bottom to top).  A lost
    /// rendering context is fatal: the run loop stops at the next
    /// iteration boundary.  Any other failure skips this tick.
    pub fn handle_render_result(&mut self, result: Result<(), SwapBuffersError>) -> (r: (
        RenderOutcome,
        Vec<u64>,
    ))
        requires
            old(self).wf(),
        ensures
            final(self).wf(),
            final(self).config == old(self).config,
            final(self).space == old(self).space,
            final(self).pointer == old(self).pointer,
            final(self).pointer_focus == old(self).pointer_focus,
            final(self).keyboard_focus == old(self).keyboard_focus,
            final(self).cursor_status == old(self).cursor_status,
            final(self).monitors == old(self).monitors,
            final(self).popups@ == old(self).popups@,
            result is Ok ==> final(self).running == old(self).running && r.0
                == RenderOutcome::Presented && r.1@ == old(self).space.windows@.map_values(
                |w: WindowElement| w.id,
            ),
            result == Err::<(), SwapBuffersError>(SwapBuffersError::ContextLost) ==> !final(self).running && r.0 == RenderOutcome::Fatal && r.1@ == Seq::<u64>::empty(),
            result == Err::<(), SwapBuffersError>(SwapBuffersError::Temporary) ==> final(self).running == old(self).running && r.0 == RenderOutcome::Skipped && r.1@ == Seq::<
                u64,
            >::empty(),
    {
        match result {
            Ok(_) => {
                let mut ids: Vec<u64> = Vec::new();
                let mut k: usize = 0;
                while k < self.space.windows.len()
                    invariant
                        0 <= k <= self.space.windows@.len(),
                        self == old(self),
                        ids@.len() == k,
                        forall|j: int| 0 <= j < k ==> ids@[j] == self.space.windows@[j].id,
                    decreases self.space.windows@.len() - k,
                {
                    ids.push(self.space.windows[k].id);
                    k = k + 1;
                }
                proof {
                    assert(ids@ =~= old(self).space.windows@.map_values(
                        |w: WindowElement| w.id,
                    ));
                }
                (RenderOutcome::Presented, ids)
            },
            Err(SwapBuffersError::ContextLost) => {
                self.running = false;
                (RenderOutcome::Fatal, Vec::new())
            },
            Err(SwapBuffersError::Temporary) => (RenderOutcome::Skipped, Vec::new()),
        }
    }
}

} // verus!
