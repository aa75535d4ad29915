//! The geometry primitive: an axis-aligned rectangle used for widget
//! bounds and hit-testing.

use vstd::prelude::*;

verus! {

/// A rectangle for widget bounds. Width and height may be negative: such
/// degenerate rectangles arise naturally from layout (for example when
/// padding exceeds half a dimension) and are legal values that simply
/// contain no points.
#[derive(Debug, Clone, Copy, PartialEq, Eq, Structural)]
pub struct UIRect {
    pub x: i32,
    pub y: i32,
    pub width: i32,
    pub height: i32,
}

impl UIRect {
    /// True when the point lies within the rectangle, boundary included.
    pub open spec fn spec_contains(self, px: int, py: int) -> bool {
        &&& self.x <= px <= self.x + self.width
        &&& self.y <= py <= self.y + self.height
    }

    /// Create a new rectangle.
    pub fn new(x: i32, y: i32, width: i32, height: i32) -> (r: UIRect)
        ensures
            r == (UIRect { x, y, width, height }),
    {
        UIRect { x, y, width, height }
    }

    /// Check if a point is inside this rectangle (inclusive on all edges).
    /// A rectangle with negative width or height contains no points.
    pub fn contains_point(&self, px: i32, py: i32) -> (b: bool)
        ensures
            b == self.spec_contains(px as int, py as int),
    {
        let xl: i64 = self.x as i64;
        let yl: i64 = self.y as i64;
        let pxl: i64 = px as i64;
        let pyl: i64 = py as i64;
        pxl >= xl && pxl <= xl + self.width as i64 && pyl >= yl && pyl <= yl + self.height as i64
    }

    /// The centre point of this rectangle. Halving truncates toward zero,
    /// matching the behaviour of integer division on the machine.
    pub fn center(&self) -> (c: (i64, i64))
        ensures
            c.0 == self.x + half_toward_zero(self.width as int),
            c.1 == self.y + half_toward_zero(self.height as int),
    {
        let hw: i64 = if self.width >= 0 {
            (self.width as i64) / 2
        } else {
            -((-(self.width as i64)) / 2)
        };
        let hh: i64 = if self.height >= 0 {
            (self.height as i64) / 2
        } else {
            -((-(self.height as i64)) / 2)
        };
        (self.x as i64 + hw, self.y as i64 + hh)
    }
}

/// Half of `w`, rounded toward zero.
pub open spec fn half_toward_zero(w: int) -> int {
    if w >= 0 {
        w / 2
    } else {
        -((-w) / 2)
    }
}

/// A third of `v`, rounded toward zero.
pub open spec fn third_toward_zero(v: int) -> int {
    if v >= 0 {
        v / 3
    } else {
        -((-v) / 3)
    }
}

} // verus!
