use vstd::prelude::*;

verus! {

/// Something the pointer can rest on; some such things can also be dragged.
pub trait Hoverable {
    spec fn spec_is_draggable(&self) -> bool;

    fn is_draggable(&self) -> (r: bool)
        ensures
            r == self.spec_is_draggable(),
    ;
}

/// What the pointer can hover over: the divider between the palette and
/// the rack, a template in the palette, or a device in the rack (the last
/// two by index).
#[derive(Clone, Copy, Debug, PartialEq, Eq, Structural)]
pub enum HoverTarget {
    Divider,
    PaletteDevice(usize),
    RackDevice(usize),
}

impl Hoverable for HoverTarget {
    open spec fn spec_is_draggable(&self) -> bool {
        match self {
            HoverTarget::Divider => true,
            HoverTarget::PaletteDevice(_) => true,
            HoverTarget::RackDevice(_) => true,
        }
    }

    fn is_draggable(&self) -> (r: bool) {
        match self {
            HoverTarget::Divider => true,
            HoverTarget::PaletteDevice(_) => true,
            HoverTarget::RackDevice(_) => true,
        }
    }
}

/// What the pointer is doing with a target.
#[derive(Clone, Copy, Debug, PartialEq, Eq, Structural)]
pub enum Hover {
    Hovering(HoverTarget),
    Dragging(HoverTarget),
}

/// The pointer's state: resting on nothing, hovering over a target, or
/// dragging one.
#[derive(Clone, Copy, Debug)]
pub struct HoverHandler(Option<Hover>);

impl HoverHandler {
    pub closed spec fn state(&self) -> Option<Hover> {
        self.0
    }

    pub fn new() -> (r: HoverHandler)
        ensures
            r.state() is None,
    {
        HoverHandler(None)
    }

    /// Whether the pointer rests on any target, hovering or dragging.
    pub fn is_hovering(&self) -> (r: bool)
        ensures
            r == (self.state() is Some),
    {
        self.0.is_some()
    }

    pub fn start_hovering(&mut self, target: HoverTarget)
        ensures
            final(self).state() == Some(Hover::Hovering(target)),
    {
        self.0 = Some(Hover::Hovering(target));
    }

    /// The current hover, whether plain or a drag.
    pub fn hovering(&self) -> (r: Option<&Hover>)
        ensures
            match self.state() {
                Some(h) => r == Some(&h),
                None => r is None,
            },
    {
        self.0.as_ref()
    }

    /// The current hover, whether plain or a drag, to be changed in place.
    pub fn hovering_mut(&mut self) -> (r: Option<&mut Hover>)
        ensures
            match old(self).state() {
                Some(h) => r is Some && *r.unwrap() == h && final(self).state() == Some(
                    *final(r.unwrap()),
                ),
                None => r is None && final(self).state() is None,
            },
    {
        self.0.as_mut()
    }

    pub fn is_dragging(&self) -> (r: bool)
        ensures
            r == (self.state() matches Some(Hover::Dragging(_))),
    {
        matches!(self.0, Some(Hover::Dragging(_)))
    }

    /// Starts dragging `target`, which must be draggable.
    pub fn start_dragging(&mut self, target: HoverTarget)
        requires
            target.spec_is_draggable(),
        ensures
            final(self).state() == Some(Hover::Dragging(target)),
    {
        self.0 = Some(Hover::Dragging(target));
    }

    /// The current hover if it is a drag.
    pub fn dragging(&self) -> (r: Option<&Hover>)
        ensures
            match self.state() {
                Some(Hover::Dragging(t)) => r == Some(&Hover::Dragging(t)),
                _ => r is None,
            },
    {
        match &self.0 {
            Some(hover) => match hover {
                Hover::Dragging(_) => Some(hover),
                Hover::Hovering(_) => None,
            },
            None => None,
        }
    }

    /// The current hover if it is a drag, to be changed in place.
    pub fn dragging_mut(&mut self) -> (r: Option<&mut Hover>)
        ensures
            match old(self).state() {
                Some(Hover::Dragging(t)) => r is Some && *r.unwrap() == Hover::Dragging(t)
                    && final(self).state() == Some(*final(r.unwrap())),
                _ => r is None && final(self).state() == old(self).state(),
            },
    {
        match &mut self.0 {
            Some(hover) => {
                if matches!(hover, Hover::Dragging(_)) {
                    Some(hover)
                } else {
                    None
                }
            },
            None => None,
        }
    }

    /// Stops hovering and dragging.
    pub fn clear(&mut self)
        ensures
            final(self).state() is None,
    {
        self.0 = None;
    }
}

} // verus!
