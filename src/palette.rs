use crate::device::Device;
use crate::viewport::Viewport;
use vstd::prelude::*;

verus! {

/// The pane of device templates that can be dragged into the rack. The
/// rectangles of the listed devices are relative to the pane.
#[derive(Debug)]
pub struct Palette {
    pub pane: Viewport,
    pub list: Vec<Device>,
}

impl Palette {
    /// A palette drawn into `pane`, with no templates yet.
    pub fn new(pane: Viewport) -> (r: Palette)
        ensures
            r.pane == pane,
            r.list@.len() == 0,
    {
        Palette { pane, list: Vec::new() }
    }
}

} // verus!
