//! Axis-aligned rectangles in milli-pixel coordinates and the overlap test
//! used by every collision check: any non-empty intersection counts as a hit.

use vstd::prelude::*;

verus! {

/// Every coordinate handled by the collision tests stays well inside this
/// bound, so the sums in the overlap test cannot overflow an `i64`.
pub const GEOM_BOUND: i64 = 100_000_000_000_000;

/// Bound on every entity coordinate as it is stored between frames. One
/// frame of movement stays far below `GEOM_BOUND`, so all derived
/// rectangles remain safe for the overlap test.
pub const MAX_COORD: i64 = 1_000_000_000;

/// An axis-aligned rectangle: origin at (`x`, `y`), extending `w` to the
/// right and `h` downward, in milli-pixels.
#[derive(Clone, Copy, PartialEq, Eq, Structural, Debug)]
pub struct Rect {
    pub x: i64,
    pub y: i64,
    pub w: i64,
    pub h: i64,
}

/// Two rectangles hit each other exactly when their intersection is
/// non-empty, i.e. they share interior points on both axes. This reading is
/// deliberate: rectangles that merely touch along an edge — a zero-area
/// intersection — do not count as a hit. A collision library that treats an
/// exact edge touch as a hit would differ from this one only on
/// configurations where two edges land on the same milli-pixel.
pub open spec fn rect_overlap(a: Rect, b: Rect) -> bool {
    &&& a.x < b.x + b.w
    &&& b.x < a.x + a.w
    &&& a.y < b.y + b.h
    &&& b.y < a.y + a.h
}

/// Coordinates of moving formation entities are defensively clamped to
/// `[-MAX_COORD, MAX_COORD]` — a window a million pixels around the screen,
/// never reached in play — so that positions provably stay in range whatever
/// sequence of frames runs.
pub open spec fn clamp_coord(v: int) -> int {
    if v < -MAX_COORD {
        -MAX_COORD as int
    } else if v > MAX_COORD {
        MAX_COORD as int
    } else {
        v
    }
}

pub open spec fn rect_in_bounds(a: Rect) -> bool {
    &&& -GEOM_BOUND <= a.x <= GEOM_BOUND
    &&& -GEOM_BOUND <= a.y <= GEOM_BOUND
    &&& 0 <= a.w <= GEOM_BOUND
    &&& 0 <= a.h <= GEOM_BOUND
}

impl Rect {
    pub fn new(x: i64, y: i64, w: i64, h: i64) -> (r: Rect)
        ensures
            r == (Rect { x, y, w, h }),
    {
        Rect { x, y, w, h }
    }

    /// Decides whether `self` and `other` intersect in a non-empty region.
    pub fn overlaps(&self, other: &Rect) -> (r: bool)
        requires
            rect_in_bounds(*self),
            rect_in_bounds(*other),
        ensures
            r == rect_overlap(*self, *other),
    {
        self.x < other.x + other.w && other.x < self.x + self.w && self.y < other.y + other.h
            && other.y < self.y + self.h
    }
}

} // verus!
