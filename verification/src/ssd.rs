//! Server-side decoration state: a solid-color border buffer pair that
//! tracks whether its window is focused and renders in the matching color.

use vstd::prelude::*;

use crate::geometry::{Point, Rect, Size};
use crate::render::RenderElement;

verus! {

/// A window border drawn from solid-color buffers: one color for the
/// focused state, one for the unfocused state.
#[derive(Clone, Copy, Debug, PartialEq, Eq, Structural)]
pub struct Border {
    pub size: u8,
    pub is_focused: bool,
    pub color_focused: u32,
    pub color_unfocused: u32,
}

impl Border {
    /// A border of the given thickness; unfocused until told otherwise.
    pub fn new(size: u8, color_focused: u32, color_unfocused: u32) -> (b: Border)
        ensures
            b == (Border { size, is_focused: false, color_focused, color_unfocused }),
    {
        Border { size, is_focused: false, color_focused, color_unfocused }
    }

    pub fn set_focus(&mut self)
        ensures
            *final(self) == (Border { is_focused: true, ..*old(self) }),
    {
        self.is_focused = true;
    }

    pub fn remove_focus(&mut self)
        ensures
            *final(self) == (Border { is_focused: false, ..*old(self) }),
    {
        self.is_focused = false;
    }

    /// The border element for a window drawn at `location` with content
    /// area `area`: offset up and left by the border thickness, in the
    /// color the focus state picks.
    pub fn render_elements(&self, location: Point, area: Size) -> (r: Vec<RenderElement>)
        requires
            location.wf(),
            area.wf(),
        ensures
            r@ == seq![
                (RenderElement::Border {
                    geometry: (Rect {
                        loc: (Point {
                            x: (location.x - self.size) as i64,
                            y: (location.y - self.size) as i64,
                        }),
                        size: area,
                    }),
                    color: if self.is_focused {
                        self.color_focused
                    } else {
                        self.color_unfocused
                    },
                    thickness: self.size,
                }),
            ],
    {
        let color = if self.is_focused {
            self.color_focused
        } else {
            self.color_unfocused
        };
        let offset = self.size as i64;
        let mut v: Vec<RenderElement> = Vec::new();
        v.push(
            RenderElement::Border {
                geometry: Rect {
                    loc: Point { x: location.x - offset, y: location.y - offset },
                    size: area,
                },
                color,
                thickness: self.size,
            },
        );
        proof {
            assert(v@ =~= seq![
                (RenderElement::Border {
                    geometry: (Rect {
                        loc: (Point {
                            x: (location.x - self.size) as i64,
                            y: (location.y - self.size) as i64,
                        }),
                        size: area,
                    }),
                    color: if self.is_focused {
                        self.color_focused
                    } else {
                        self.color_unfocused
                    },
                    thickness: self.size,
                }),
            ]);
        }
        v
    }
}

} // verus!
