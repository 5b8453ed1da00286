use vstd::prelude::*;

verus! {

/// Coordinates handed to the intersection test stay below this magnitude,
/// so that corner sums cannot overflow an `i64`.
pub const COORD_LIMIT: i64 = 0x0400_0000_0000_0000;

/// An axis-aligned rectangle: origin at `(x, y)`, extending `w` to the
/// right and `h` downwards, in subunits.
#[derive(Clone, Copy, PartialEq, Eq, Structural, Debug)]
pub struct Rect {
    pub x: i64,
    pub y: i64,
    pub w: i64,
    pub h: i64,
}

/// Two axis-aligned rectangles overlap, boundaries inclusive: a shared
/// edge or corner counts as an overlap.
pub open spec fn overlaps(a: Rect, b: Rect) -> bool {
    &&& a.x <= b.x + b.w
    &&& b.x <= a.x + a.w
    &&& a.y <= b.y + b.h
    &&& b.y <= a.y + a.h
}

impl Rect {
    /// All four fields are small enough for the corner sums in
    /// `intersects` to stay within `i64`.
    pub open spec fn bounded(self) -> bool {
        &&& -COORD_LIMIT <= self.x <= COORD_LIMIT
        &&& -COORD_LIMIT <= self.y <= COORD_LIMIT
        &&& -COORD_LIMIT <= self.w <= COORD_LIMIT
        &&& -COORD_LIMIT <= self.h <= COORD_LIMIT
    }

    pub fn new(x: i64, y: i64, w: i64, h: i64) -> (r: Rect)
        ensures
            r == (Rect { x, y, w, h }),
    {
        Rect { x, y, w, h }
    }

    /// Axis-aligned bounding-box intersection test, boundaries inclusive.
    pub fn intersects(&self, other: &Rect) -> (r: bool)
        requires
            self.bounded(),
            other.bounded(),
        ensures
            r == overlaps(*self, *other),
    {
        self.x <= other.x + other.w && other.x <= self.x + self.w && self.y <= other.y + other.h
            && other.y <= self.y + self.h
    }
}

} // verus!
