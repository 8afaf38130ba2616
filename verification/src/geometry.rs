//! Half-open rectangles in virtual-desktop pixel space.
//!
//! Every rectangle spans `[x, x + width) x [y, y + height)`.  Edge-touching
//! rectangles do not intersect, and a point on the right or bottom edge is
//! outside.  All arithmetic is widened to 64 bits so that coordinates
//! anywhere in the `i32` range combine with sizes anywhere in the `u32`
//! range without overflow.

use vstd::prelude::*;

verus! {

/// An axis-aligned rectangle: origin in signed virtual-desktop pixels,
/// size in unsigned pixels.
#[derive(Clone, Copy, PartialEq, Eq, Structural, Debug)]
pub struct Rect {
    pub x: i32,
    pub y: i32,
    pub width: u32,
    pub height: u32,
}

impl Rect {
    /// Left edge (inclusive).
    pub open spec fn left(self) -> int {
        self.x as int
    }

    /// Top edge (inclusive).
    pub open spec fn top(self) -> int {
        self.y as int
    }

    /// Right edge (exclusive).
    pub open spec fn right(self) -> int {
        self.x + self.width
    }

    /// Bottom edge (exclusive).
    pub open spec fn bottom(self) -> int {
        self.y + self.height
    }

    /// Half-open containment: the right and bottom edges are outside.
    pub open spec fn spec_contains_point(self, px: int, py: int) -> bool {
        &&& self.left() <= px < self.right()
        &&& self.top() <= py < self.bottom()
    }

    /// Half-open intersection: two rectangles that only touch along an
    /// edge do not intersect.
    pub open spec fn spec_intersects(self, other: Rect) -> bool {
        &&& self.left() < other.right()
        &&& other.left() < self.right()
        &&& self.top() < other.bottom()
        &&& other.top() < self.bottom()
    }

    /// Builds a rectangle from its four components.
    pub fn new(x: i32, y: i32, width: u32, height: u32) -> (r: Rect)
        ensures
            r == (Rect { x, y, width, height }),
    {
        Rect { x, y, width, height }
    }

    /// Whether the point lies inside this rectangle, with the right and
    /// bottom edges excluded.
    pub fn contains_point(&self, px: i32, py: i32) -> (r: bool)
        ensures
            r == self.spec_contains_point(px as int, py as int),
    {
        let x0: i64 = self.x as i64;
        let y0: i64 = self.y as i64;
        let px_w: i64 = px as i64;
        let py_w: i64 = py as i64;
        x0 <= px_w && px_w < x0 + self.width as i64 && y0 <= py_w && py_w < y0 + self.height as i64
    }

    /// Whether the two rectangles overlap in an area of positive size.
    pub fn intersects(&self, other: &Rect) -> (r: bool)
        ensures
            r == self.spec_intersects(*other),
    {
        let ax: i64 = self.x as i64;
        let ay: i64 = self.y as i64;
        let bx: i64 = other.x as i64;
        let by: i64 = other.y as i64;
        ax < bx + other.width as i64 && bx < ax + self.width as i64 && ay < by
            + other.height as i64 && by < ay + self.height as i64
    }
}

/// Whether two rectangles overlap, under the half-open reading: edge
/// contact alone is not an overlap.
pub fn rectangles_intersect(a: &Rect, b: &Rect) -> (r: bool)
    ensures
        r == a.spec_intersects(*b),
{
    a.intersects(b)
}

/// A point contained in both of two rectangles witnesses that they
/// intersect: containment of a shared point and overlap agree.
pub proof fn lemma_shared_point_intersects(a: Rect, b: Rect, px: int, py: int)
    requires
        a.spec_contains_point(px, py),
        b.spec_contains_point(px, py),
    ensures
        a.spec_intersects(b),
{
}

} // verus!
