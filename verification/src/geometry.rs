//! Logical coordinates, rectangles and fixed-point pointer positions.
//!
//! Window and output geometry lives on an integer pixel grid.  Pointer
//! positions are kept at sub-pixel precision as multiples of `1/SUB_UNIT`
//! of a logical pixel, so motion deltas and rounding behave exactly.

use vstd::prelude::*;

verus! {

/// Sub-pixel units per logical pixel.
pub const SUB_UNIT: i64 = 256;

/// Largest magnitude of a pixel coordinate the model accepts.
pub const COORD_LIMIT: i64 = 0x4000_0000;

/// Largest magnitude of a sub-pixel coordinate the model accepts.
pub const SUB_LIMIT: i64 = 0x40_0000_0000;

/// A pixel coordinate within the model's working range.
pub open spec fn px_ok(v: int) -> bool {
    -(COORD_LIMIT as int) <= v <= COORD_LIMIT as int
}

/// A sub-pixel coordinate within the model's working range.
pub open spec fn sub_ok(v: int) -> bool {
    -(SUB_LIMIT as int) <= v <= SUB_LIMIT as int
}

/// A point on the logical pixel grid.
#[derive(Clone, Copy, Debug, PartialEq, Eq, Structural)]
pub struct Point {
    pub x: i64,
    pub y: i64,
}

/// A size in logical pixels.
#[derive(Clone, Copy, Debug, PartialEq, Eq, Structural)]
pub struct Size {
    pub w: i64,
    pub h: i64,
}

/// An axis-aligned rectangle of logical pixels.
#[derive(Clone, Copy, Debug, PartialEq, Eq, Structural)]
pub struct Rect {
    pub loc: Point,
    pub size: Size,
}

/// A pointer position at sub-pixel precision (units of `1/SUB_UNIT` pixel).
#[derive(Clone, Copy, Debug, PartialEq, Eq, Structural)]
pub struct SubPoint {
    pub x: i64,
    pub y: i64,
}

impl Point {
    pub open spec fn wf(self) -> bool {
        px_ok(self.x as int) && px_ok(self.y as int)
    }
}

impl Size {
    pub open spec fn wf(self) -> bool {
        0 <= self.w <= COORD_LIMIT && 0 <= self.h <= COORD_LIMIT
    }
}

impl SubPoint {
    pub open spec fn wf(self) -> bool {
        sub_ok(self.x as int) && sub_ok(self.y as int)
    }

    /// The sub-pixel position of a pixel-grid point.
    pub fn from_px(p: Point) -> (r: SubPoint)
        requires
            p.wf(),
        ensures
            r.x == p.x * SUB_UNIT,
            r.y == p.y * SUB_UNIT,
            r.wf(),
    {
        SubPoint { x: p.x * SUB_UNIT, y: p.y * SUB_UNIT }
    }
}

impl Rect {
    pub open spec fn wf(self) -> bool {
        self.loc.wf() && self.size.wf()
    }

    /// Whether a pixel-grid point lies inside the rectangle (half-open on
    /// the far edges).
    pub open spec fn spec_contains_pt(self, p: Point) -> bool {
        self.loc.x <= p.x < self.loc.x + self.size.w
            && self.loc.y <= p.y < self.loc.y + self.size.h
    }

    /// Whether a sub-pixel point lies inside the rectangle.
    pub open spec fn spec_contains_sub(self, p: SubPoint) -> bool {
        self.loc.x * SUB_UNIT <= p.x < (self.loc.x + self.size.w) * SUB_UNIT
            && self.loc.y * SUB_UNIT <= p.y < (self.loc.y + self.size.h) * SUB_UNIT
    }

    pub fn contains_pt(&self, p: Point) -> (r: bool)
        requires
            self.wf(),
        ensures
            r == self.spec_contains_pt(p),
    {
        self.loc.x <= p.x && p.x < self.loc.x + self.size.w && self.loc.y <= p.y && p.y
            < self.loc.y + self.size.h
    }

    pub fn contains_sub(&self, p: SubPoint) -> (r: bool)
        requires
            0 <= self.size.w,
            0 <= self.size.h,
            -3 * COORD_LIMIT <= self.loc.x,
            self.loc.x + self.size.w <= 3 * COORD_LIMIT,
            -3 * COORD_LIMIT <= self.loc.y,
            self.loc.y + self.size.h <= 3 * COORD_LIMIT,
        ensures
            r == self.spec_contains_sub(p),
    {
        self.loc.x * SUB_UNIT <= p.x && p.x < (self.loc.x + self.size.w) * SUB_UNIT
            && self.loc.y * SUB_UNIT <= p.y && p.y < (self.loc.y + self.size.h) * SUB_UNIT
    }

    /// The rectangle grown by `thickness` pixels on every edge: the origin
    /// moves up and left by the thickness and each dimension grows by twice
    /// the thickness.
    pub fn inflate(&self, thickness: u8) -> (r: Rect)
        requires
            self.wf(),
        ensures
            r == spec_inflate(*self, thickness),
            r.loc.x == self.loc.x - thickness,
            r.loc.y == self.loc.y - thickness,
            r.size.w == self.size.w + 2 * thickness,
            r.size.h == self.size.h + 2 * thickness,
    {
        Rect {
            loc: Point { x: self.loc.x - thickness as i64, y: self.loc.y - thickness as i64 },
            size: Size {
                w: self.size.w + 2 * thickness as i64,
                h: self.size.h + 2 * thickness as i64,
            },
        }
    }
}

/// The rectangle grown by `thickness` pixels on every edge.  For rectangles
/// in the working range this never truncates.
pub open spec fn spec_inflate(r: Rect, thickness: u8) -> Rect {
    Rect {
        loc: Point { x: (r.loc.x - thickness) as i64, y: (r.loc.y - thickness) as i64 },
        size: Size {
            w: (r.size.w + 2 * thickness) as i64,
            h: (r.size.h + 2 * thickness) as i64,
        },
    }
}

/// Border-inflated geometry keeps the inner rectangle centred: each
/// dimension equals the inner size plus twice the thickness, and the
/// origin shifts by the thickness in each axis.
pub proof fn lemma_inflate_symmetric(inner: Rect, outer: Rect, thickness: u8)
    requires
        inner.wf(),
        outer.loc.x == inner.loc.x - thickness,
        outer.loc.y == inner.loc.y - thickness,
        outer.size.w == inner.size.w + 2 * thickness,
        outer.size.h == inner.size.h + 2 * thickness,
    ensures
        outer.loc.x + outer.size.w == inner.loc.x + inner.size.w + thickness,
        outer.loc.y + outer.size.h == inner.loc.y + inner.size.h + thickness,
        inner.loc.x - outer.loc.x == thickness,
        inner.loc.y - outer.loc.y == thickness,
{
}

/// The value clamped into `[lo, hi]`.
pub open spec fn spec_clamp(v: int, lo: int, hi: int) -> int {
    if v < lo {
        lo
    } else if v > hi {
        hi
    } else {
        v
    }
}

pub fn clamp_i64(v: i64, lo: i64, hi: i64) -> (r: i64)
    requires
        lo <= hi,
    ensures
        r == spec_clamp(v as int, lo as int, hi as int),
{
    if v < lo {
        lo
    } else if v > hi {
        hi
    } else {
        v
    }
}

/// A sub-pixel value rounded to the nearest pixel, ties away from zero.
pub open spec fn spec_round_sub(v: int) -> int {
    if v >= 0 {
        (v + SUB_UNIT / 2) / (SUB_UNIT as int)
    } else {
        -(((-v) + SUB_UNIT / 2) / (SUB_UNIT as int))
    }
}

pub fn round_sub(v: i64) -> (r: i64)
    requires
        -0x4000_0000_0000_0000 <= v <= 0x4000_0000_0000_0000,
    ensures
        r == spec_round_sub(v as int),
{
    if v >= 0 {
        (v + SUB_UNIT / 2) / SUB_UNIT
    } else {
        -(((-v) + SUB_UNIT / 2) / SUB_UNIT)
    }
}

/// Rounding a whole-pixel offset is exact: a sub-pixel position that sits
/// on the pixel grid rounds to its own pixel.
pub proof fn lemma_round_sub_exact(px: int)
    ensures
        spec_round_sub(px * SUB_UNIT) == px,
{
    if px >= 0 {
        assert((px * 256 + 128) / 256 == px) by (nonlinear_arith);
    } else {
        assert(((-(px * 256)) + 128) / 256 == -px) by (nonlinear_arith);
    }
}

} // verus!
