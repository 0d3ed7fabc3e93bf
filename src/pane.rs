use crate::geometry::{Rect, Vec2};
use vstd::prelude::*;

verus! {

/// A rectangular screen region that reports whether a point falls on it.
#[derive(Clone, Copy, Debug)]
pub struct Pane {
    region: Rect,
}

impl Pane {
    pub closed spec fn spec_region(&self) -> Rect {
        self.region
    }

    pub fn new(region: Rect) -> (r: Pane)
        ensures
            r.spec_region() == region,
    {
        Pane { region }
    }

    /// Whether `point` falls on the region, its right and bottom edges
    /// excluded.
    pub fn is_overlapping(&self, point: Vec2) -> (r: bool)
        requires
            self.spec_region().in_range(),
        ensures
            r == self.spec_region().covers(point),
    {
        self.region.contains_point(point)
    }
}

} // verus!
