use crate::device::{height_for, height_of, lemma_height_for, plugins_for, Device, DeviceKind};
use crate::geometry::{Rect, Vec2, COORD_LIMIT};
use crate::viewport::Viewport;
use vstd::prelude::*;

verus! {

/// Why a device could not be inserted.
#[derive(Clone, Copy, Debug, PartialEq, Eq, Structural)]
pub enum RackError {
    /// The index is past the end of the device list.
    IndexOutOfRange,
}

/// An ordered vertical stack of devices inside a viewport. Index 0 is the
/// topmost device.
#[derive(Debug)]
pub struct Rack {
    pub pane: Viewport,
    pub devices: Vec<Device>,
}

/// The y at which a device inserted at `index` into `devices` starts: the top
/// margin for the first place, else one gap below the device that stays
/// above it.
pub open spec fn top_for(devices: Seq<Device>, index: int) -> int {
    if index == 0 {
        Rack::DEVICE_GAP as int
    } else {
        devices[index - 1].spec_rectangle().y + devices[index - 1].spec_rectangle().height
            + Rack::DEVICE_GAP
    }
}

/// `after` is `before` with a device of `kind` inserted at `index`: the
/// devices above keep their places, the new one starts at `top_for`, and
/// each device below moves down by the new device's height and one gap.
pub open spec fn inserted(before: Seq<Device>, index: int, kind: DeviceKind, after: Seq<Device>) -> bool {
    &&& after.len() == before.len() + 1
    &&& forall|j: int| 0 <= j < index ==> after[j] == before[j]
    &&& after[index].spec_rectangle().x == Rack::BEAM_WIDTH
    &&& after[index].spec_rectangle().y == top_for(before, index)
    &&& after[index].spec_rectangle().width == Device::WIDTH
    &&& after[index].spec_rectangle().height == height_for(kind)
    &&& after[index].spec_kind() == kind
    &&& after[index].spec_plugins() == plugins_for(kind)
    &&& forall|j: int|
        index < j < after.len() ==> #[trigger] after[j].shifted_from(
            &before[j - 1],
            height_for(kind) + Rack::DEVICE_GAP,
        )
}

/// The devices form a stack: all in the rack's column, the first one at the
/// top margin, and each next one starting one gap below the bottom of the
/// one before it.
pub open spec fn stacked(devices: Seq<Device>) -> bool {
    &&& forall|j: int| 0 <= j < devices.len() ==> #[trigger] devices[j].spec_rectangle().x == Rack::BEAM_WIDTH
    &&& devices.len() > 0 ==> devices[0].spec_rectangle().y == Rack::DEVICE_GAP
    &&& forall|i: int|
        0 <= i < devices.len() - 1 ==> #[trigger] devices[i + 1].spec_rectangle().y == devices[i].spec_rectangle().y
            + devices[i].spec_rectangle().height + Rack::DEVICE_GAP
}

/// Inserting a device into a stack keeps it a stack.
pub proof fn lemma_insert_keeps_stacking(
    before: Seq<Device>,
    index: int,
    kind: DeviceKind,
    after: Seq<Device>,
)
    requires
        stacked(before),
        forall|j: int| 0 <= j < before.len() ==> #[trigger] before[j].wf(),
        0 <= index <= before.len(),
        inserted(before, index, kind, after),
    ensures
        stacked(after),
{
    assert forall|j: int| 0 <= j < after.len() implies #[trigger] after[j].spec_rectangle().x
        == Rack::BEAM_WIDTH by {
        if j < index {
            assert(after[j] == before[j]);
        } else if j > index {
            assert(after[j].shifted_from(&before[j - 1], height_for(kind) + Rack::DEVICE_GAP));
        }
    }
    if index > 0 {
        assert(after[0] == before[0]);
    }
    let shift = height_for(kind) + Rack::DEVICE_GAP;
    assert forall|i: int| 0 <= i < after.len() - 1 implies #[trigger] after[i + 1].spec_rectangle().y
        == after[i].spec_rectangle().y + after[i].spec_rectangle().height + Rack::DEVICE_GAP by {
        if i + 1 < index {
            assert(after[i] == before[i]);
            assert(after[i + 1] == before[i + 1]);
        } else if i + 1 == index {
            assert(after[i] == before[i]);
        } else if i == index {
            assert(after[i + 1].shifted_from(&before[(i + 1) - 1], shift));
            if index > 0 {
                assert(before[(index - 1) + 1].spec_rectangle().y == before[index - 1].spec_rectangle().y
                    + before[index - 1].spec_rectangle().height + Rack::DEVICE_GAP);
            }
        } else {
            assert(after[i].shifted_from(&before[i - 1], shift));
            assert(after[i + 1].shifted_from(&before[(i + 1) - 1], shift));
            assert(before[(i - 1) + 1].spec_rectangle().y == before[i - 1].spec_rectangle().y
                + before[i - 1].spec_rectangle().height + Rack::DEVICE_GAP);
        }
    }
}

/// In a stack of well-formed devices each device lies wholly above every
/// later one, one gap or more apart: the y order is strictly increasing and
/// no two devices overlap.
pub proof fn lemma_stacked_ordered(devices: Seq<Device>, i: int, j: int)
    requires
        stacked(devices),
        forall|k: int| 0 <= k < devices.len() ==> #[trigger] devices[k].wf(),
        0 <= i < j < devices.len(),
    ensures
        devices[i].spec_rectangle().y + devices[i].spec_rectangle().height + Rack::DEVICE_GAP
            <= devices[j].spec_rectangle().y,
        devices[i].spec_rectangle().y < devices[j].spec_rectangle().y,
    decreases j - i,
{
    assert(devices[j - 1].wf());
    lemma_height_for(devices[j - 1].spec_kind());
    assert(devices[j - 1 + 1].spec_rectangle().y == devices[j - 1].spec_rectangle().y
        + devices[j - 1].spec_rectangle().height + Rack::DEVICE_GAP);
    if i < j - 1 {
        lemma_stacked_ordered(devices, i, j - 1);
    }
    assert(devices[i].wf());
    lemma_height_for(devices[i].spec_kind());
}

impl Rack {
    pub const DEVICE_GAP: i64 = 1;

    pub const BEAM_WIDTH: i64 = 12;

    /// Every device is well formed.
    pub open spec fn wf(&self) -> bool {
        forall|j: int| 0 <= j < self.devices@.len() ==> #[trigger] self.devices@[j].wf()
    }

    /// Every device can still move down by the tallest device and a gap
    /// without leaving the coordinate bound.
    pub open spec fn has_room(&self) -> bool {
        forall|j: int|
            0 <= j < self.devices@.len() ==> #[trigger] self.devices@[j].spec_rectangle().y
                + height_of(2) + Rack::DEVICE_GAP <= COORD_LIMIT
    }

    /// An empty rack drawn into `pane`.
    pub fn new(pane: Viewport) -> (r: Rack)
        ensures
            r.pane == pane,
            r.devices@.len() == 0,
            r.wf(),
            stacked(r.devices@),
    {
        Rack { pane, devices: Vec::new() }
    }

    /// Inserts a device of `kind` at `index`, pushing every device at or
    /// after `index` down to make space. Returns the new device's index.
    pub fn insert_device(&mut self, index: usize, kind: DeviceKind) -> (r: Result<usize, RackError>)
        requires
            old(self).wf(),
            old(self).has_room(),
        ensures
            final(self).wf(),
            index > old(self).devices@.len() ==> r == Err::<usize, RackError>(
                RackError::IndexOutOfRange,
            ) && *final(self) == *old(self),
            index <= old(self).devices@.len() ==> {
                &&& r == Ok::<usize, RackError>(index)
                &&& final(self).pane == old(self).pane
                &&& inserted(old(self).devices@, index as int, kind, final(self).devices@)
                &&& stacked(old(self).devices@) ==> stacked(final(self).devices@)
            },
    {
        if index > self.devices.len() {
            return Err(RackError::IndexOutOfRange);
        }
        proof {
            lemma_height_for(kind);
            if index > 0 {
                let above = self.devices@[index - 1];
                assert(above.wf());
                assert(above.spec_rectangle().y + height_of(2) + Rack::DEVICE_GAP <= COORD_LIMIT);
                lemma_height_for(above.spec_kind());
            }
        }
        let y = if index == 0 {
            Self::DEVICE_GAP
        } else {
            self.devices[index - 1].bottom_y() + Self::DEVICE_GAP
        };
        let device = Device::new(Vec2 { x: Self::BEAM_WIDTH, y }, kind);
        let shift = device.rectangle().height + Self::DEVICE_GAP;
        let ghost before = self.devices@;
        let mut j: usize = index;
        while j < self.devices.len()
            invariant
                index <= j <= self.devices@.len(),
                self.pane == old(self).pane,
                before == old(self).devices@,
                self.devices@.len() == before.len(),
                shift == height_for(kind) + Rack::DEVICE_GAP,
                forall|k: int| 0 <= k < before.len() ==> #[trigger] before[k].wf(),
                forall|k: int|
                    0 <= k < before.len() ==> #[trigger] before[k].spec_rectangle().y + height_of(2)
                        + Rack::DEVICE_GAP <= COORD_LIMIT,
                forall|k: int| 0 <= k < before.len() ==> #[trigger] self.devices@[k].wf(),
                forall|k: int| 0 <= k < index ==> #[trigger] self.devices@[k] == before[k],
                forall|k: int| j <= k < before.len() ==> #[trigger] self.devices@[k] == before[k],
                forall|k: int|
                    index <= k < j ==> #[trigger] self.devices@[k].shifted_from(&before[k], shift as int),
            decreases before.len() - j,
        {
            proof {
                lemma_height_for(kind);
                assert(self.devices@[j as int] == before[j as int]);
                assert(before[j as int].wf());
                assert(before[j as int].spec_rectangle().y + height_of(2) + Rack::DEVICE_GAP
                    <= COORD_LIMIT);
            }
            self.devices[j].move_y(shift);
            j += 1;
        }
        self.devices.insert(index, device);
        proof {
            let after = self.devices@;
            assert(after[index as int] == device);
            if stacked(before) {
                lemma_insert_keeps_stacking(before, index as int, kind, after);
            }
        }
        Ok(index)
    }

    /// The two beams that bound the device column, each a beam wide and as
    /// tall as the pane: one at the left edge, one just right of the devices.
    pub fn beam_rectangles(&self) -> (r: (Rect, Rect))
        ensures
            ({
                let h = self.pane.spec_region().height;
                &&& r.0 == (Rect { x: 0, y: 0, width: Rack::BEAM_WIDTH, height: h })
                &&& r.1 == (Rect { x: 212, ..r.0 })
            }),
    {
        let height = self.pane.size().y;
        (
            Rect { x: 0, y: 0, width: Self::BEAM_WIDTH, height },
            Rect { x: Device::WIDTH + Self::BEAM_WIDTH, y: 0, width: Self::BEAM_WIDTH, height },
        )
    }
}

} // verus!
