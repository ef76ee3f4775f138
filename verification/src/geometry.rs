//! Integer geometry for the viewport.
//!
//! All coordinates are whole device units on a single vertical axis:
//! a rectangle's `y` grows downward and `x` to the right. Every dimension
//! the viewport handles is bounded by [`MAX_DIM`], which keeps all of the
//! layout and scroll arithmetic far away from `i64` overflow.

use vstd::prelude::*;

verus! {

/// Upper bound on any coordinate or size handled by the viewport.
pub const MAX_DIM: i64 = 0x1000_0000_0000;

/// Tolerance for the "at top" / "at bottom" tests: an edge is at the
/// boundary when it is strictly within one unit of it.
pub const SIGMA: i64 = 1;

/// An axis-aligned rectangle.
#[derive(Clone, Copy, Debug, PartialEq, Eq, Structural)]
pub struct Rect {
    pub x: i64,
    pub y: i64,
    pub width: i64,
    pub height: i64,
}

/// The width and height one item reports for itself this frame.
#[derive(Clone, Copy, Debug, PartialEq, Eq, Structural)]
pub struct ItemExtent {
    pub width: i64,
    pub height: i64,
}

impl Rect {
    /// A rectangle lies in the first quadrant and within [`MAX_DIM`] on
    /// both axes.
    pub open spec fn wf(self) -> bool {
        &&& 0 <= self.x
        &&& 0 <= self.y
        &&& 0 <= self.width
        &&& 0 <= self.height
        &&& self.x + self.width <= MAX_DIM
        &&& self.y + self.height <= MAX_DIM
    }

    /// The rectangle with zero size at the origin.
    pub fn zero() -> (r: Rect)
        ensures
            r.x == 0 && r.y == 0 && r.width == 0 && r.height == 0,
            r.wf(),
    {
        Rect { x: 0, y: 0, width: 0, height: 0 }
    }
}

impl ItemExtent {
    pub open spec fn wf(self) -> bool {
        &&& 0 <= self.width <= MAX_DIM
        &&& 0 <= self.height <= MAX_DIM
    }
}

/// `v` clamped into `[lo, hi]`; callers must order the bounds.
pub open spec fn clamp_spec(v: int, lo: int, hi: int) -> int {
    if v < lo {
        lo
    } else if v > hi {
        hi
    } else {
        v
    }
}

/// Clamp `v` into `[lo, hi]`.
pub fn clamp_i64(v: i64, lo: i64, hi: i64) -> (r: i64)
    requires
        lo <= hi,
    ensures
        r == clamp_spec(v as int, lo as int, hi as int),
{
    if v < lo {
        lo
    } else if v > hi {
        hi
    } else {
        v
    }
}

} // verus!
