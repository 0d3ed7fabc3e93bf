use crate::geometry::Vec2;
use vstd::prelude::*;

verus! {

/// Which way a plugin carries its signal. Descriptive only: it picks the
/// plugin's color and does not restrict which plugins may be wired.
#[derive(Clone, Copy, Debug, PartialEq, Eq, Structural)]
pub enum PluginDirection {
    In,
    Out,
    InOut,
}

impl PluginDirection {
    pub fn is_input(&self) -> (r: bool)
        ensures
            r == (*self is In),
    {
        matches!(self, PluginDirection::In)
    }

    pub fn is_output(&self) -> (r: bool)
        ensures
            r == (*self is Out),
    {
        matches!(self, PluginDirection::Out)
    }

    pub fn is_in_out(&self) -> (r: bool)
        ensures
            r == (*self is InOut),
    {
        matches!(self, PluginDirection::InOut)
    }
}

/// What a plugin carries: control flow or a value.
#[derive(Clone, Copy, Debug, PartialEq, Eq, Structural)]
pub enum PluginKind {
    Execution,
    Value,
}

/// The drawn radius of a plugin of kind `k`.
pub open spec fn radius_of(k: PluginKind) -> int {
    match k {
        PluginKind::Execution => 8,
        PluginKind::Value => 5,
    }
}

impl PluginKind {
    /// The drawn radius: execution plugins are larger than value plugins.
    pub fn radius(&self) -> (r: i64)
        ensures
            r == radius_of(*self),
    {
        match self {
            PluginKind::Execution => 8,
            PluginKind::Value => 5,
        }
    }

    pub fn is_execution(&self) -> (r: bool)
        ensures
            r == (*self is Execution),
    {
        matches!(self, PluginKind::Execution)
    }

    pub fn is_variable(&self) -> (r: bool)
        ensures
            r == (*self is Value),
    {
        matches!(self, PluginKind::Value)
    }
}

/// The six plugin colors, one for each pair of kind and direction.
#[derive(Clone, Copy, Debug, PartialEq, Eq, Structural)]
pub enum PluginColor {
    Gray,
    LightGray,
    Green,
    Blue,
    Red,
    Violet,
}

/// The color that marks a plugin of kind `k` and direction `d`.
pub open spec fn color_of(k: PluginKind, d: PluginDirection) -> PluginColor {
    match (k, d) {
        (PluginKind::Execution, PluginDirection::In) => PluginColor::Gray,
        (PluginKind::Execution, PluginDirection::Out) => PluginColor::LightGray,
        (PluginKind::Execution, PluginDirection::InOut) => PluginColor::Green,
        (PluginKind::Value, PluginDirection::In) => PluginColor::Blue,
        (PluginKind::Value, PluginDirection::Out) => PluginColor::Red,
        (PluginKind::Value, PluginDirection::InOut) => PluginColor::Violet,
    }
}

/// A connection point of a device. Its offset is relative to the top-left
/// corner of the device that owns it.
#[derive(Clone, Copy, Debug)]
pub struct Plugin {
    pub kind: PluginKind,
    pub direction: PluginDirection,
    pub offset: Vec2,
}

impl Plugin {
    /// `self` is a plugin of kind `k` and direction `d` at `offset`.
    pub open spec fn is(&self, k: PluginKind, d: PluginDirection, offset: Vec2) -> bool {
        &&& self.kind == k
        &&& self.direction == d
        &&& self.offset == offset
    }

    pub fn new(kind: PluginKind, direction: PluginDirection, offset: Vec2) -> (r: Plugin)
        ensures
            r.is(kind, direction, offset),
    {
        Plugin { kind, direction, offset }
    }

    pub fn exec_in(offset: Vec2) -> (r: Plugin)
        ensures
            r.is(PluginKind::Execution, PluginDirection::In, offset),
    {
        Self::new(PluginKind::Execution, PluginDirection::In, offset)
    }

    pub fn exec_out(offset: Vec2) -> (r: Plugin)
        ensures
            r.is(PluginKind::Execution, PluginDirection::Out, offset),
    {
        Self::new(PluginKind::Execution, PluginDirection::Out, offset)
    }

    pub fn exec_inout(offset: Vec2) -> (r: Plugin)
        ensures
            r.is(PluginKind::Execution, PluginDirection::InOut, offset),
    {
        Self::new(PluginKind::Execution, PluginDirection::InOut, offset)
    }

    pub fn value_in(offset: Vec2) -> (r: Plugin)
        ensures
            r.is(PluginKind::Value, PluginDirection::In, offset),
    {
        Self::new(PluginKind::Value, PluginDirection::In, offset)
    }

    pub fn value_out(offset: Vec2) -> (r: Plugin)
        ensures
            r.is(PluginKind::Value, PluginDirection::Out, offset),
    {
        Self::new(PluginKind::Value, PluginDirection::Out, offset)
    }

    pub fn value_inout(offset: Vec2) -> (r: Plugin)
        ensures
            r.is(PluginKind::Value, PluginDirection::InOut, offset),
    {
        Self::new(PluginKind::Value, PluginDirection::InOut, offset)
    }

    pub fn is_input(&self) -> (r: bool)
        ensures
            r == (self.direction is In),
    {
        self.direction.is_input()
    }

    pub fn is_output(&self) -> (r: bool)
        ensures
            r == (self.direction is Out),
    {
        self.direction.is_output()
    }

    pub fn is_in_out(&self) -> (r: bool)
        ensures
            r == (self.direction is InOut),
    {
        self.direction.is_in_out()
    }

    pub fn is_execution(&self) -> (r: bool)
        ensures
            r == (self.kind is Execution),
    {
        self.kind.is_execution()
    }

    pub fn is_variable(&self) -> (r: bool)
        ensures
            r == (self.kind is Value),
    {
        self.kind.is_variable()
    }

    pub fn radius(&self) -> (r: i64)
        ensures
            r == radius_of(self.kind),
    {
        self.kind.radius()
    }

    /// The color the plugin is drawn in, looked up from its kind and direction.
    pub fn color(&self) -> (r: PluginColor)
        ensures
            r == color_of(self.kind, self.direction),
    {
        match (self.kind, self.direction) {
            (PluginKind::Execution, PluginDirection::In) => PluginColor::Gray,
            (PluginKind::Execution, PluginDirection::Out) => PluginColor::LightGray,
            (PluginKind::Execution, PluginDirection::InOut) => PluginColor::Green,
            (PluginKind::Value, PluginDirection::In) => PluginColor::Blue,
            (PluginKind::Value, PluginDirection::Out) => PluginColor::Red,
            (PluginKind::Value, PluginDirection::InOut) => PluginColor::Violet,
        }
    }
}

} // verus!
