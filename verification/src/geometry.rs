//! Axis-aligned rectangles and the overlap test.

use vstd::prelude::*;

verus! {

/// An axis-aligned rectangle: its top-left corner and its size.
#[derive(PartialEq, Eq, Structural, Copy, Clone, Hash, Debug)]
pub struct Rect {
    pub x: i32,
    pub y: i32,
    pub w: u32,
    pub h: u32,
}

impl Rect {
    /// The x coordinate of the left side.
    pub open spec fn left(self) -> int {
        self.x as int
    }

    /// The x coordinate just past the right side.
    pub open spec fn right(self) -> int {
        self.x + self.w
    }

    /// The y coordinate of the top side.
    pub open spec fn top(self) -> int {
        self.y as int
    }

    /// The y coordinate just past the bottom side.
    pub open spec fn bottom(self) -> int {
        self.y + self.h
    }

    /// The rectangle with top-left corner `(x, y)`, `w` wide and `h` high.
    pub fn new(x: i32, y: i32, w: u32, h: u32) -> (r: Rect)
        ensures
            r == (Rect { x, y, w, h }),
    {
        Rect { x, y, w, h }
    }
}

/// Two rectangles overlap when no side of one lies at or beyond the
/// opposite side of the other. Sides that merely touch do not overlap.
pub open spec fn intersects(a: Rect, b: Rect) -> bool {
    !(a.bottom() <= b.top() || a.top() >= b.bottom() || a.right() <= b.left() || a.left()
        >= b.right())
}

/// The width of the strip that two rectangles share, if positive.
pub open spec fn overlap_width(a: Rect, b: Rect) -> int {
    let hi = if a.right() < b.right() { a.right() } else { b.right() };
    let lo = if a.left() > b.left() { a.left() } else { b.left() };
    if hi > lo { hi - lo } else { 0 }
}

/// The height of the strip that two rectangles share, if positive.
pub open spec fn overlap_height(a: Rect, b: Rect) -> int {
    let hi = if a.bottom() < b.bottom() { a.bottom() } else { b.bottom() };
    let lo = if a.top() > b.top() { a.top() } else { b.top() };
    if hi > lo { hi - lo } else { 0 }
}

/// The area that two rectangles share.
pub open spec fn overlap_area(a: Rect, b: Rect) -> int {
    overlap_width(a, b) * overlap_height(a, b)
}

/// Whether two rectangles overlap. Touching sides are no overlap.
pub fn check_collision(a: &Rect, b: &Rect) -> (r: bool)
    ensures
        r == intersects(*a, *b),
{
    let left_a: i64 = a.x as i64;
    let right_a: i64 = a.x as i64 + a.w as i64;
    let top_a: i64 = a.y as i64;
    let bottom_a: i64 = a.y as i64 + a.h as i64;

    let left_b: i64 = b.x as i64;
    let right_b: i64 = b.x as i64 + b.w as i64;
    let top_b: i64 = b.y as i64;
    let bottom_b: i64 = b.y as i64 + b.h as i64;

    if bottom_a <= top_b {
        return false;
    }
    if top_a >= bottom_b {
        return false;
    }
    if right_a <= left_b {
        return false;
    }
    if left_a >= right_b {
        return false;
    }
    true
}

/// Rectangles that meet along a side, one ending where the other begins,
/// do not overlap.
pub proof fn lemma_shared_edge_is_no_overlap(a: Rect, b: Rect)
    requires
        a.right() == b.left() || a.left() == b.right() || a.bottom() == b.top() || a.top()
            == b.bottom(),
    ensures
        !intersects(a, b),
        !intersects(b, a),
{
}

/// Rectangles that share a positive area overlap.
pub proof fn lemma_shared_area_is_overlap(a: Rect, b: Rect)
    requires
        overlap_area(a, b) > 0,
    ensures
        intersects(a, b),
{
    let w = overlap_width(a, b);
    let h = overlap_height(a, b);
    assert(w > 0 && h > 0) by (nonlinear_arith)
        requires
            w >= 0,
            h >= 0,
            w * h > 0,
    ;
}

/// Of two rectangles of positive size, those that overlap share a positive
/// area.
pub proof fn lemma_overlap_has_area(a: Rect, b: Rect)
    requires
        a.w > 0,
        a.h > 0,
        b.w > 0,
        b.h > 0,
        intersects(a, b),
    ensures
        overlap_area(a, b) > 0,
{
    let w = overlap_width(a, b);
    let h = overlap_height(a, b);
    assert(w * h > 0) by (nonlinear_arith)
        requires
            w > 0,
            h > 0,
    ;
}

/// The overlap test does not depend on the order of its arguments.
pub proof fn lemma_intersects_symmetric(a: Rect, b: Rect)
    ensures
        intersects(a, b) == intersects(b, a),
{
}

} // verus!
