use vstd::prelude::*;

verus! {

/// Bound on the magnitude of every coordinate that the library stores, so
/// that sums of a coordinate and a layout length always fit in `i64`.
pub const COORD_LIMIT: i64 = 1152921504606846976;

/// A coordinate whose magnitude is within the library's bound.
pub open spec fn in_range(c: int) -> bool {
    -COORD_LIMIT <= c <= COORD_LIMIT
}

/// A point or an offset in the plane; y grows downward.
#[derive(Clone, Copy, Debug, PartialEq, Eq, Structural)]
pub struct Vec2 {
    pub x: i64,
    pub y: i64,
}

impl Vec2 {
    pub fn new(x: i64, y: i64) -> (r: Vec2)
        ensures
            r == (Vec2 { x, y }),
    {
        Vec2 { x, y }
    }

    /// Both coordinates are within the library's bound.
    pub open spec fn in_range(self) -> bool {
        in_range(self.x as int) && in_range(self.y as int)
    }
}

/// An axis-aligned rectangle: top-left corner and size.
#[derive(Clone, Copy, Debug, PartialEq, Eq, Structural)]
pub struct Rect {
    pub x: i64,
    pub y: i64,
    pub width: i64,
    pub height: i64,
}

impl Rect {
    pub fn new(x: i64, y: i64, width: i64, height: i64) -> (r: Rect)
        ensures
            r == (Rect { x, y, width, height }),
    {
        Rect { x, y, width, height }
    }

    /// The point `p` lies in the closed box `[x, x + width] × [y, y + height]`.
    pub open spec fn encloses(self, p: (int, int)) -> bool {
        &&& self.x <= p.0 <= self.x + self.width
        &&& self.y <= p.1 <= self.y + self.height
    }

    /// `p` lies in the half-open box `[x, x + width) × [y, y + height)`.
    pub open spec fn covers(self, p: Vec2) -> bool {
        &&& self.x <= p.x < self.x + self.width
        &&& self.y <= p.y < self.y + self.height
    }

    /// Corner and size are all within the library's bound.
    pub open spec fn in_range(self) -> bool {
        &&& in_range(self.x as int)
        &&& in_range(self.y as int)
        &&& in_range(self.width as int)
        &&& in_range(self.height as int)
    }

    /// Whether `point` is inside the rectangle, the left and top edges
    /// included and the right and bottom edges excluded.
    pub fn contains_point(&self, point: Vec2) -> (r: bool)
        requires
            self.in_range(),
        ensures
            r == self.covers(point),
    {
        point.x >= self.x && point.x < self.x + self.width && point.y >= self.y && point.y
            < self.y + self.height
    }
}

} // verus!
