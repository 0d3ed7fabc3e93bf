use crate::geometry::{Rect, Vec2};
use vstd::prelude::*;

verus! {

/// A rectangular region of the screen, clipped, with a 2D camera looking at
/// `viewpoint`.
#[derive(Clone, Copy, Debug)]
pub struct Viewport {
    region: Rect,
    viewpoint: Vec2,
}

impl Viewport {
    pub closed spec fn spec_region(&self) -> Rect {
        self.region
    }

    pub closed spec fn spec_viewpoint(&self) -> Vec2 {
        self.viewpoint
    }

    /// A viewport over `region`, its camera at the origin.
    pub fn new(region: Rect) -> (r: Viewport)
        ensures
            r.spec_region() == region,
            r.spec_viewpoint() == (Vec2 { x: 0, y: 0 }),
    {
        Viewport { region, viewpoint: Vec2 { x: 0, y: 0 } }
    }

    /// Whether `point` falls on the region, its right and bottom edges
    /// excluded.
    pub fn is_overlapping(&self, point: Vec2) -> (r: bool)
        requires
            self.spec_region().in_range(),
        ensures
            r == self.spec_region().covers(point),
    {
        self.region.contains_point(point)
    }

    /// Width and height of the region.
    pub fn size(&self) -> (r: Vec2)
        ensures
            r == (Vec2 { x: self.spec_region().width, y: self.spec_region().height }),
    {
        Vec2 { x: self.region.width, y: self.region.height }
    }

    /// The region that drawing is clipped to.
    pub fn region(&self) -> (r: Rect)
        ensures
            r == self.spec_region(),
    {
        self.region
    }

    /// The point the camera looks at.
    pub fn viewpoint(&self) -> (r: Vec2)
        ensures
            r == self.spec_viewpoint(),
    {
        self.viewpoint
    }
}

} // verus!
