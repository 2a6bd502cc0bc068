//! Points and axis-aligned boxes on the playfield.

use vstd::prelude::*;

verus! {

/// A place on the playfield. The origin is the centre of the field, `x` grows
/// to the right and `y` grows upwards.
#[derive(Clone, Copy, Debug, PartialEq, Eq, Structural)]
pub struct Point {
    pub x: i64,
    pub y: i64,
}

/// A velocity: the speed along each axis. A positive `x` moves to the right,
/// a positive `y` moves upwards.
#[derive(Clone, Copy, Debug, PartialEq, Eq, Structural)]
pub struct Velocity {
    pub x: i64,
    pub y: i64,
}

impl Velocity {
    /// A velocity can be turned round when the opposite speed along each
    /// axis is again a speed of machine size.
    pub open spec fn reversible(self) -> bool {
        self.x > i64::MIN && self.y > i64::MIN
    }

    /// Whether the velocity can be turned round.
    pub fn is_reversible(&self) -> (ok: bool)
        ensures
            ok == self.reversible(),
    {
        self.x > i64::MIN && self.y > i64::MIN
    }
}

/// An axis-aligned box, given by its centre and by half its width and half
/// its height.
#[derive(Clone, Copy, Debug, PartialEq, Eq, Structural)]
pub struct Rect {
    pub center: Point,
    pub half_width: i64,
    pub half_height: i64,
}

impl Rect {
    /// The `x` of the left edge.
    pub open spec fn left(self) -> int {
        self.center.x - self.half_width
    }

    /// The `x` of the right edge.
    pub open spec fn right(self) -> int {
        self.center.x + self.half_width
    }

    /// The `y` of the lower edge.
    pub open spec fn bottom(self) -> int {
        self.center.y - self.half_height
    }

    /// The `y` of the upper edge.
    pub open spec fn top(self) -> int {
        self.center.y + self.half_height
    }

    /// Two boxes overlap when, along both axes, each begins before the other
    /// ends. Boxes that merely share an edge do not overlap.
    pub open spec fn spec_overlaps(self, other: Rect) -> bool {
        &&& self.left() < other.right()
        &&& self.bottom() < other.top()
        &&& self.right() > other.left()
        &&& self.top() > other.bottom()
    }

    /// Whether this box and `other` overlap.
    pub fn overlaps(&self, other: &Rect) -> (hit: bool)
        ensures
            hit == self.spec_overlaps(*other),
    {
        let left: i128 = self.center.x as i128 - self.half_width as i128;
        let right: i128 = self.center.x as i128 + self.half_width as i128;
        let bottom: i128 = self.center.y as i128 - self.half_height as i128;
        let top: i128 = self.center.y as i128 + self.half_height as i128;
        let other_left: i128 = other.center.x as i128 - other.half_width as i128;
        let other_right: i128 = other.center.x as i128 + other.half_width as i128;
        let other_bottom: i128 = other.center.y as i128 - other.half_height as i128;
        let other_top: i128 = other.center.y as i128 + other.half_height as i128;
        left < other_right && bottom < other_top && right > other_left && top > other_bottom
    }
}

/// Overlap does not depend on which box is asked.
pub proof fn lemma_overlap_symmetric(a: Rect, b: Rect)
    ensures
        a.spec_overlaps(b) == b.spec_overlaps(a),
{
}

} // verus!
