use crate::geometry::{in_range, Rect, Vec2};
use crate::plugin::{Plugin, PluginDirection, PluginKind};
use crate::rack::Rack;
use crate::text::{
    decimal, fixed3, push_decimal, push_fixed3, push_signed_decimal, signed_decimal,
    string_from_chars,
};
use vstd::prelude::*;

verus! {

/// The flag a conditional jump tests.
#[derive(Clone, Copy, Debug, PartialEq, Eq, Structural)]
pub enum JumpCondition {
    Always,
    Zero,
    Sign,
    Overflow,
    Carry,
}

/// The operation of a math device.
#[derive(Clone, Copy, Debug, PartialEq, Eq, Structural)]
pub enum Operation {
    Mov,
    Add,
    Sub,
    Mul,
    Div,
    Rem,
    And,
    Orr,
    Not,
    Xor,
    Shl,
    Shr,
}

/// The constant an immediate device holds.
///
/// A 32-bit float is held as its value in thousandths, which is all that a
/// device shows of it.
#[derive(Clone, Copy, Debug, PartialEq, Eq, Structural)]
pub enum Value {
    I32(i32),
    U32(u32),
    F32(i64),
}

/// The text a device shows for `v`: a signed integer plainly, an unsigned
/// one with a trailing `u`, a float with three decimals.
pub open spec fn value_text(v: Value) -> Seq<char> {
    match v {
        Value::I32(n) => signed_decimal(n as int),
        Value::U32(n) => decimal(n as nat).push('u'),
        Value::F32(m) => fixed3(m as int),
    }
}

impl Value {
    /// The text of the value, as a device shows it.
    pub fn to_string(&self) -> (r: String)
        ensures
            r@ == value_text(*self),
    {
        let mut out: Vec<char> = Vec::new();
        match self {
            Value::I32(n) => push_signed_decimal(&mut out, *n as i64),
            Value::U32(n) => {
                push_decimal(&mut out, *n as u64);
                out.push('u');
            },
            Value::F32(m) => push_fixed3(&mut out, *m),
        }
        proof {
            assert(out@ =~= value_text(*self));
        }
        string_from_chars(&out)
    }
}

/// What a device does; each kind has a fixed plugin layout.
#[derive(Clone, Debug)]
pub enum DeviceKind {
    Label(String),
    Jump { is_not: bool, condition: JumpCondition },
    Math(Operation),
    Immediate(Value),
    Call,
    Ret,
}

/// Horizontal anchor of a plugin: the `n`-th plugin slot counted from the
/// left edge, from the right edge, or from the center in either direction;
/// or the center itself.
#[derive(Clone, Copy, Debug, PartialEq, Eq, Structural)]
pub enum AlignX {
    RightFromLeft(u32),
    LeftFromRight(u32),
    LeftFromCenter(u32),
    RightFromCenter(u32),
    HCenter,
}

/// Vertical anchor of a plugin, as `AlignX` is for the horizontal.
#[derive(Clone, Copy, Debug, PartialEq, Eq, Structural)]
pub enum AlignY {
    DownFromTop(u32),
    UpFromBottom(u32),
    UpFromCenter(u32),
    DownFromCenter(u32),
    VCenter,
}

/// One row of a device kind's plugin table: what the plugin is and where
/// it is anchored.
#[derive(Clone, Copy, Debug, PartialEq, Eq, Structural)]
pub struct Slot {
    pub kind: PluginKind,
    pub direction: PluginDirection,
    pub x: AlignX,
    pub y: AlignY,
}

/// Height of a band that holds `n` plugins stacked along it: `n` plugin
/// diameters, the gaps between them, and one gap at each end.
pub open spec fn height_of(n: int) -> int {
    2 * Device::PLUGIN_SHARED_RADIUS * n + Device::PLUGIN_GAP * (n + 1)
}

/// Distance from a band's starting edge to the center of its `n`-th plugin.
pub open spec fn coord_of(n: int) -> int {
    Device::PLUGIN_GAP + (2 * Device::PLUGIN_SHARED_RADIUS + Device::PLUGIN_GAP) * n + Device::PLUGIN_SHARED_RADIUS
}

/// Horizontal offset of an anchor within a device.
pub open spec fn anchor_x(a: AlignX) -> int {
    match a {
        AlignX::RightFromLeft(n) => coord_of(n as int),
        AlignX::LeftFromRight(n) => Device::WIDTH - coord_of(n as int),
        AlignX::LeftFromCenter(n) => Device::WIDTH / 2 - coord_of(n as int),
        AlignX::RightFromCenter(n) => Device::WIDTH / 2 + coord_of(n as int),
        AlignX::HCenter => Device::WIDTH / 2,
    }
}

/// Vertical offset of an anchor within a device of the given height.
pub open spec fn anchor_y(height: int, a: AlignY) -> int {
    match a {
        AlignY::DownFromTop(n) => coord_of(n as int),
        AlignY::UpFromBottom(n) => height - coord_of(n as int),
        AlignY::UpFromCenter(n) => height / 2 - coord_of(n as int),
        AlignY::DownFromCenter(n) => height / 2 + coord_of(n as int),
        AlignY::VCenter => height / 2,
    }
}

/// Number of plugin rows a kind needs: two where execution enters at the top
/// and leaves at the bottom, one for immediates and returns.
pub open spec fn rows(kind: DeviceKind) -> int {
    match kind {
        DeviceKind::Immediate(_) | DeviceKind::Ret => 1,
        _ => 2,
    }
}

/// Height of a device of the given kind.
pub open spec fn height_for(kind: DeviceKind) -> int {
    height_of(rows(kind))
}

pub open spec fn slot(
    kind: PluginKind,
    direction: PluginDirection,
    x: AlignX,
    y: AlignY,
) -> Slot {
    Slot { kind, direction, x, y }
}

/// The plugin table of each device kind.
pub open spec fn layout(kind: DeviceKind) -> Seq<Slot> {
    let exec = PluginKind::Execution;
    let value = PluginKind::Value;
    let top = AlignY::DownFromTop(0);
    let bottom = AlignY::UpFromBottom(0);
    let right = AlignX::LeftFromRight(0);
    let mid = AlignY::VCenter;
    match kind {
        DeviceKind::Label(_) => seq![
            slot(exec, PluginDirection::InOut, AlignX::RightFromLeft(0), top),
            slot(exec, PluginDirection::Out, AlignX::RightFromLeft(0), bottom),
        ],
        DeviceKind::Jump { condition: JumpCondition::Always, .. } => seq![
            slot(exec, PluginDirection::In, AlignX::RightFromLeft(0), top),
            slot(exec, PluginDirection::Out, right, mid),
        ],
        DeviceKind::Jump { .. } => seq![
            slot(exec, PluginDirection::In, AlignX::RightFromLeft(0), top),
            slot(value, PluginDirection::In, AlignX::RightFromLeft(1), top),
            slot(exec, PluginDirection::Out, right, mid),
            slot(exec, PluginDirection::Out, AlignX::RightFromLeft(0), bottom),
        ],
        DeviceKind::Math(Operation::Not) | DeviceKind::Math(Operation::Mov) => seq![
            slot(exec, PluginDirection::In, AlignX::RightFromLeft(0), top),
            slot(exec, PluginDirection::Out, AlignX::RightFromLeft(0), bottom),
            slot(value, PluginDirection::In, AlignX::RightFromLeft(1), top),
            slot(value, PluginDirection::Out, AlignX::RightFromLeft(1), bottom),
        ],
        DeviceKind::Math(_) => seq![
            slot(exec, PluginDirection::In, AlignX::RightFromLeft(0), top),
            slot(exec, PluginDirection::Out, AlignX::RightFromLeft(0), bottom),
            slot(value, PluginDirection::In, AlignX::RightFromLeft(1), top),
            slot(value, PluginDirection::In, AlignX::RightFromLeft(2), top),
            slot(value, PluginDirection::Out, AlignX::RightFromLeft(1), bottom),
        ],
        DeviceKind::Immediate(_) => seq![slot(value, PluginDirection::Out, right, mid)],
        DeviceKind::Call => seq![
            slot(exec, PluginDirection::In, AlignX::RightFromLeft(0), top),
            slot(exec, PluginDirection::InOut, right, mid),
            slot(exec, PluginDirection::Out, AlignX::RightFromLeft(0), bottom),
        ],
        DeviceKind::Ret => seq![slot(exec, PluginDirection::In, AlignX::RightFromLeft(0), top)],
    }
}

/// The plugin that a table row places on a device of the given height.
pub open spec fn placed(s: Slot, height: int) -> Plugin {
    Plugin {
        kind: s.kind,
        direction: s.direction,
        offset: Vec2 { x: anchor_x(s.x) as i64, y: anchor_y(height, s.y) as i64 },
    }
}

/// The plugins of a device of the given kind, in table order.
pub open spec fn plugins_for(kind: DeviceKind) -> Seq<Plugin> {
    layout(kind).map_values(|s: Slot| placed(s, height_for(kind)))
}

/// A rack module: a rectangle whose height follows from its kind, and the
/// plugins that the kind's table places on it.
#[derive(Clone, Debug)]
pub struct Device {
    rec: Rect,
    kind: DeviceKind,
    plugins: Vec<Plugin>,
}

impl Device {
    pub const PLUGIN_SHARED_RADIUS: i64 = 10;

    pub const PLUGIN_GAP: i64 = 10;

    pub const PLUGIN_INSET: i64 = Self::PLUGIN_GAP + Self::PLUGIN_SHARED_RADIUS;

    pub const LABEL_FONT_SIZE: i32 = 20;

    pub const WIDTH: i64 = 200;

    pub const GRIP_WIDTH: i64 = 1;

    pub closed spec fn spec_rectangle(&self) -> Rect {
        self.rec
    }

    pub closed spec fn spec_kind(&self) -> DeviceKind {
        self.kind
    }

    pub closed spec fn spec_plugins(&self) -> Seq<Plugin> {
        self.plugins@
    }

    /// The rectangle has the shared width and the kind's height, its corner
    /// is within the coordinate bound, and the plugins are the kind's table.
    pub open spec fn wf(&self) -> bool {
        let r = self.spec_rectangle();
        &&& r.width == Device::WIDTH
        &&& r.height == height_for(self.spec_kind())
        &&& in_range(r.x as int)
        &&& in_range(r.y as int)
        &&& self.spec_plugins() == plugins_for(self.spec_kind())
    }

    /// The height of a device with `n` plugins stacked vertically.
    pub fn height_with_plugins(n: u32) -> (r: i64)
        ensures
            r == height_of(n as int),
    {
        2 * Self::PLUGIN_SHARED_RADIUS * n as i64 + Self::PLUGIN_GAP * (n as i64 + 1)
    }

    /// The center of the `n`-th plugin along an axis, from the band's start.
    pub fn plugin_coord(n: u32) -> (r: i64)
        ensures
            r == coord_of(n as int),
            20 <= r <= 128849018870,
    {
        Self::PLUGIN_GAP + (Self::PLUGIN_SHARED_RADIUS * 2 + Self::PLUGIN_GAP) * n as i64
            + Self::PLUGIN_SHARED_RADIUS
    }

    /// The offset that a pair of anchors names within a device of the given
    /// height.
    pub fn plugin_position(height: i64, x: AlignX, y: AlignY) -> (r: Vec2)
        requires
            0 <= height,
            in_range(height as int),
        ensures
            r.x == anchor_x(x),
            r.y == anchor_y(height as int, y),
    {
        let px = match x {
            AlignX::RightFromLeft(n) => Self::plugin_coord(n),
            AlignX::LeftFromRight(n) => Self::WIDTH - Self::plugin_coord(n),
            AlignX::LeftFromCenter(n) => Self::WIDTH / 2 - Self::plugin_coord(n),
            AlignX::RightFromCenter(n) => Self::WIDTH / 2 + Self::plugin_coord(n),
            AlignX::HCenter => Self::WIDTH / 2,
        };
        let py = match y {
            AlignY::DownFromTop(n) => Self::plugin_coord(n),
            AlignY::UpFromBottom(n) => height - Self::plugin_coord(n),
            AlignY::UpFromCenter(n) => height / 2 - Self::plugin_coord(n),
            AlignY::DownFromCenter(n) => height / 2 + Self::plugin_coord(n),
            AlignY::VCenter => height / 2,
        };
        Vec2 { x: px, y: py }
    }

    /// The number of plugin rows of `kind`.
    fn rows(kind: &DeviceKind) -> (r: u32)
        ensures
            r == rows(*kind),
    {
        match kind {
            DeviceKind::Immediate(_) | DeviceKind::Ret => 1,
            _ => 2,
        }
    }

    /// The plugin table of `kind`.
    fn slots(kind: &DeviceKind) -> (r: Vec<Slot>)
        ensures
            r@ == layout(*kind),
    {
        let exec = PluginKind::Execution;
        let value = PluginKind::Value;
        let top = AlignY::DownFromTop(0);
        let bottom = AlignY::UpFromBottom(0);
        let right = AlignX::LeftFromRight(0);
        let mid = AlignY::VCenter;
        let r = match kind {
            // .-&----------.
            // | text       |
            // '-O----------'
            DeviceKind::Label(_) => vec![
                Slot { kind: exec, direction: PluginDirection::InOut, x: AlignX::RightFromLeft(0), y: top },
                Slot { kind: exec, direction: PluginDirection::Out, x: AlignX::RightFromLeft(0), y: bottom },
            ],
            // .-O----------.
            // | [A]        O
            // '------------'
            DeviceKind::Jump { condition: JumpCondition::Always, .. } => vec![
                Slot { kind: exec, direction: PluginDirection::In, x: AlignX::RightFromLeft(0), y: top },
                Slot { kind: exec, direction: PluginDirection::Out, x: right, y: mid },
            ],
            // .-O-*--------.
            // | [?]        O
            // '-O----------'
            DeviceKind::Jump { .. } => vec![
                Slot { kind: exec, direction: PluginDirection::In, x: AlignX::RightFromLeft(0), y: top },
                Slot { kind: value, direction: PluginDirection::In, x: AlignX::RightFromLeft(1), y: top },
                Slot { kind: exec, direction: PluginDirection::Out, x: right, y: mid },
                Slot { kind: exec, direction: PluginDirection::Out, x: AlignX::RightFromLeft(0), y: bottom },
            ],
            // .-O-*--------.
            // | [~]        |
            // '-O-*--------'
            DeviceKind::Math(Operation::Not) | DeviceKind::Math(Operation::Mov) => vec![
                Slot { kind: exec, direction: PluginDirection::In, x: AlignX::RightFromLeft(0), y: top },
                Slot { kind: exec, direction: PluginDirection::Out, x: AlignX::RightFromLeft(0), y: bottom },
                Slot { kind: value, direction: PluginDirection::In, x: AlignX::RightFromLeft(1), y: top },
                Slot { kind: value, direction: PluginDirection::Out, x: AlignX::RightFromLeft(1), y: bottom },
            ],
            // .-O-*-*------.
            // | [?]        |
            // '-O-*--------'
            DeviceKind::Math(_) => vec![
                Slot { kind: exec, direction: PluginDirection::In, x: AlignX::RightFromLeft(0), y: top },
                Slot { kind: exec, direction: PluginDirection::Out, x: AlignX::RightFromLeft(0), y: bottom },
                Slot { kind: value, direction: PluginDirection::In, x: AlignX::RightFromLeft(1), y: top },
                Slot { kind: value, direction: PluginDirection::In, x: AlignX::RightFromLeft(2), y: top },
                Slot { kind: value, direction: PluginDirection::Out, x: AlignX::RightFromLeft(1), y: bottom },
            ],
            // .-----------.
            // | ?         *
            // '-----------'
            DeviceKind::Immediate(_) => vec![
                Slot { kind: value, direction: PluginDirection::Out, x: right, y: mid },
            ],
            // .-O---------.
            // |           &
            // '-O---------'
            DeviceKind::Call => vec![
                Slot { kind: exec, direction: PluginDirection::In, x: AlignX::RightFromLeft(0), y: top },
                Slot { kind: exec, direction: PluginDirection::InOut, x: right, y: mid },
                Slot { kind: exec, direction: PluginDirection::Out, x: AlignX::RightFromLeft(0), y: bottom },
            ],
            // .-O---------.
            // |           |
            // '-----------'
            DeviceKind::Ret => vec![
                Slot { kind: exec, direction: PluginDirection::In, x: AlignX::RightFromLeft(0), y: top },
            ],
        };
        proof {
            assert(r@ =~= layout(*kind));
        }
        r
    }

    /// A device of the given kind with its top-left corner at `position`.
    pub fn new(position: Vec2, kind: DeviceKind) -> (r: Device)
        requires
            position.in_range(),
        ensures
            r.wf(),
            r.spec_rectangle() == (Rect {
                x: position.x,
                y: position.y,
                width: Device::WIDTH,
                height: height_for(kind) as i64,
            }),
            r.spec_kind() == kind,
            r.spec_plugins() == plugins_for(kind),
    {
        let height = Self::height_with_plugins(Self::rows(&kind));
        let table = Self::slots(&kind);
        let mut plugins: Vec<Plugin> = Vec::new();
        let mut i: usize = 0;
        while i < table.len()
            invariant
                table@ == layout(kind),
                height == height_for(kind),
                0 <= i <= table@.len(),
                plugins@ =~= table@.take(i as int).map_values(|s: Slot| placed(s, height as int)),
            decreases table@.len() - i,
        {
            let s = table[i];
            plugins.push(Plugin::new(s.kind, s.direction, Self::plugin_position(height, s.x, s.y)));
            i += 1;
            proof {
                assert(plugins@ =~= table@.take(i as int).map_values(|s: Slot| placed(s, height as int)));
            }
        }
        proof {
            assert(table@.take(i as int) =~= table@);
        }
        Device { rec: Rect { x: position.x, y: position.y, width: Self::WIDTH, height }, kind, plugins }
    }

    /// Absolute position of the `i`-th plugin: the device's corner plus the
    /// plugin's offset.
    pub open spec fn plugin_at(&self, i: int) -> (int, int) {
        (
            self.spec_rectangle().x + self.spec_plugins()[i].offset.x,
            self.spec_rectangle().y + self.spec_plugins()[i].offset.y,
        )
    }

    /// `self` is `other` moved down by `dy`: the same in every respect but y.
    pub open spec fn shifted_from(&self, other: &Device, dy: int) -> bool {
        let (a, b) = (self.spec_rectangle(), other.spec_rectangle());
        &&& a.x == b.x
        &&& a.y == b.y + dy
        &&& a.width == b.width
        &&& a.height == b.height
        &&& self.spec_kind() == other.spec_kind()
        &&& self.spec_plugins() == other.spec_plugins()
    }

    /// Moves the device down by `y_amount` (up where it is negative). The
    /// plugins keep their offsets, so each moves with the device.
    pub fn move_y(&mut self, y_amount: i64)
        requires
            old(self).wf(),
            in_range(old(self).spec_rectangle().y + y_amount),
        ensures
            final(self).wf(),
            final(self).shifted_from(old(self), y_amount as int),
            forall|i: int|
                0 <= i < old(self).spec_plugins().len() ==> #[trigger] final(self).plugin_at(i) == (
                    old(self).plugin_at(i).0,
                    old(self).plugin_at(i).1 + y_amount,
                ),
    {
        self.rec.y = self.rec.y + y_amount;
    }

    /// Puts the top edge of the device at `y`.
    pub fn set_y(&mut self, y: i64)
        requires
            old(self).wf(),
            in_range(y as int),
        ensures
            final(self).wf(),
            final(self).shifted_from(old(self), y - old(self).spec_rectangle().y),
    {
        self.rec.y = y;
    }

    /// The top-left corner.
    pub fn position(&self) -> (r: Vec2)
        ensures
            r.x == self.spec_rectangle().x,
            r.y == self.spec_rectangle().y,
    {
        Vec2 { x: self.rec.x, y: self.rec.y }
    }

    pub fn rectangle(&self) -> (r: &Rect)
        ensures
            *r == self.spec_rectangle(),
    {
        &self.rec
    }

    pub fn kind(&self) -> (r: &DeviceKind)
        ensures
            *r == self.spec_kind(),
    {
        &self.kind
    }

    pub fn plugins(&self) -> (r: &Vec<Plugin>)
        ensures
            r@ == self.spec_plugins(),
    {
        &self.plugins
    }

    const CONNECTOR_OFFSET: i64 = 2;

    const CONNECTOR_HEIGHT: i64 = Rack::BEAM_WIDTH;

    const CONNECTOR_EXTEND: i64 = Rack::BEAM_WIDTH;

    const CONNECTOR_LENGTH: i64 = Self::WIDTH + Self::CONNECTOR_EXTEND * 2;

    /// The two connector bars that hold the device on the rack's beams: they
    /// reach past both sides by a beam's width, one near the top edge and one
    /// near the bottom edge.
    pub fn connector_rectangles(&self) -> (r: (Rect, Rect))
        requires
            self.wf(),
        ensures
            ({
                let d = self.spec_rectangle();
                &&& r.0 == (Rect { x: (d.x - 12) as i64, y: (d.y + 2) as i64, width: 224, height: 12 })
                &&& r.1 == (Rect { y: (d.y + d.height - 14) as i64, ..r.0 })
            }),
    {
        let top = Rect {
            x: self.rec.x - Self::CONNECTOR_EXTEND,
            y: self.rec.y + Self::CONNECTOR_OFFSET,
            width: Self::CONNECTOR_LENGTH,
            height: Self::CONNECTOR_HEIGHT,
        };
        let bottom = Rect {
            y: top.y + self.rec.height - Self::CONNECTOR_HEIGHT - Self::CONNECTOR_OFFSET * 2,
            ..top
        };
        (top, bottom)
    }

    /// Centers of the four bolts, one at each end of each connector bar,
    /// clockwise from the top left.
    pub fn bolt_centers(&self) -> (r: [Vec2; 4])
        requires
            self.wf(),
        ensures
            ({
                let d = self.spec_rectangle();
                let (left, right) = (d.x - 6, d.x + 206);
                let (top, bottom) = (d.y + 8, d.y + d.height - 8);
                r@ == seq![
                    Vec2 { x: left as i64, y: top as i64 },
                    Vec2 { x: right as i64, y: top as i64 },
                    Vec2 { x: right as i64, y: bottom as i64 },
                    Vec2 { x: left as i64, y: bottom as i64 },
                ]
            }),
    {
        let drop = self.rec.height - Self::CONNECTOR_HEIGHT - Self::CONNECTOR_OFFSET * 2;
        let across = Self::WIDTH + Self::CONNECTOR_EXTEND;
        let b0 = Vec2 {
            x: self.rec.x - Self::CONNECTOR_EXTEND / 2,
            y: self.rec.y + Self::CONNECTOR_OFFSET + Self::CONNECTOR_HEIGHT / 2,
        };
        let b1 = Vec2 { x: b0.x + across, y: b0.y };
        let b2 = Vec2 { x: b1.x, y: b1.y + drop };
        let b3 = Vec2 { x: b2.x - across, y: b2.y };
        let r = [b0, b1, b2, b3];
        proof {
            let d = self.spec_rectangle();
            assert(r@ =~= seq![b0, b1, b2, b3]);
            assert(r@ =~= seq![
                Vec2 { x: (d.x - 6) as i64, y: (d.y + 8) as i64 },
                Vec2 { x: (d.x + 206) as i64, y: (d.y + 8) as i64 },
                Vec2 { x: (d.x + 206) as i64, y: (d.y + d.height - 8) as i64 },
                Vec2 { x: (d.x - 6) as i64, y: (d.y + d.height - 8) as i64 },
            ]);
        }
        r
    }

    /// The inner grip panel: the body inset by the grip width on every side.
    pub fn grip_rectangle(&self) -> (r: Rect)
        requires
            self.wf(),
        ensures
            ({
                let d = self.spec_rectangle();
                r == (Rect {
                    x: (d.x + 1) as i64,
                    y: (d.y + 1) as i64,
                    width: (d.width - 2) as i64,
                    height: (d.height - 2) as i64,
                })
            }),
    {
        Rect {
            x: self.rec.x + Self::GRIP_WIDTH,
            y: self.rec.y + Self::GRIP_WIDTH,
            width: self.rec.width - Self::GRIP_WIDTH * 2,
            height: self.rec.height - Self::GRIP_WIDTH * 2,
        }
    }

    /// Absolute centers of the plugins, in the order of the plugin table.
    pub fn plugin_centers(&self) -> (r: Vec<Vec2>)
        requires
            self.wf(),
        ensures
            r@.len() == self.spec_plugins().len(),
            forall|i: int|
                0 <= i < r@.len() ==> (#[trigger] r@[i].x as int, r@[i].y as int) == self.plugin_at(i),
    {
        let mut r: Vec<Vec2> = Vec::new();
        let mut i: usize = 0;
        while i < self.plugins.len()
            invariant
                self.wf(),
                0 <= i <= self.plugins@.len(),
                r@.len() == i,
                forall|k: int| 0 <= k < i ==> (#[trigger] r@[k].x as int, r@[k].y as int) == self.plugin_at(k),
            decreases self.plugins@.len() - i,
        {
            proof {
                lemma_plugins_inside(self, i as int);
            }
            let offset = self.plugins[i].offset;
            r.push(Vec2 { x: self.rec.x + offset.x, y: self.rec.y + offset.y });
            i += 1;
        }
        r
    }

    /// The text drawn on the device and the point its top-left corner is
    /// drawn at: a label's text right of its plugin column, an immediate's
    /// value near the left edge; no text for other kinds.
    pub fn caption(&self) -> (r: Option<(String, Vec2)>)
        requires
            self.wf(),
        ensures
            ({
                let d = self.spec_rectangle();
                match self.spec_kind() {
                    DeviceKind::Label(text) => r matches Some((t, p)) && t@ == text@ && p
                        == (Vec2 { x: (d.x + 41) as i64, y: (d.y + 10) as i64 }),
                    DeviceKind::Immediate(v) => r matches Some((t, p)) && t@ == value_text(v) && p
                        == (Vec2 { x: (d.x + 11) as i64, y: (d.y + 10) as i64 }),
                    _ => r is None,
                }
            }),
    {
        match &self.kind {
            DeviceKind::Label(text) => Some(
                (
                    text.clone(),
                    Vec2 {
                        x: self.rec.x + Self::GRIP_WIDTH + Self::PLUGIN_INSET * 2,
                        y: self.rec.y + Self::PLUGIN_GAP,
                    },
                ),
            ),
            DeviceKind::Immediate(value) => Some(
                (
                    value.to_string(),
                    Vec2 {
                        x: self.rec.x + Self::GRIP_WIDTH + Self::PLUGIN_GAP,
                        y: self.rec.y + Self::PLUGIN_GAP,
                    },
                ),
            ),
            _ => None,
        }
    }

    /// The y of the bottom edge.
    pub fn bottom_y(&self) -> (r: i64)
        requires
            self.wf(),
        ensures
            r == self.spec_rectangle().y + self.spec_rectangle().height,
    {
        self.rec.y + self.rec.height
    }
}

/// A band's height grows with every plugin added to it.
pub proof fn lemma_height_increasing(a: int, b: int)
    requires
        0 <= a < b,
    ensures
        height_of(a) < height_of(b),
{
    assert(height_of(a) == 30 * a + 10);
    assert(height_of(b) == 30 * b + 10);
}

/// The anchors that the tables use: one of the first three slots from the
/// left, or the first from the right; the first row from the top or from the
/// bottom, or the vertical center.
spec fn anchored_on_edge(s: Slot) -> bool {
    &&& (s.x matches AlignX::RightFromLeft(n) && n <= 2) || s.x == AlignX::LeftFromRight(0)
    &&& s.y == AlignY::DownFromTop(0) || s.y == AlignY::UpFromBottom(0) || s.y == AlignY::VCenter
}

proof fn lemma_table_anchors(kind: DeviceKind, i: int)
    requires
        0 <= i < layout(kind).len(),
    ensures
        anchored_on_edge(layout(kind)[i]),
{
    let t = layout(kind);
    if i == 0 {
        assert(anchored_on_edge(t[0]));
    } else if i == 1 {
        assert(anchored_on_edge(t[1]));
    } else if i == 2 {
        assert(anchored_on_edge(t[2]));
    } else if i == 3 {
        assert(anchored_on_edge(t[3]));
    } else {
        assert(anchored_on_edge(t[4]));
    }
}

/// Devices are 40 units tall with one row of plugins and 70 with two.
pub proof fn lemma_height_for(kind: DeviceKind)
    ensures
        height_of(1) == 40,
        height_of(2) == 70,
        height_for(kind) == height_of(1) || height_for(kind) == height_of(2),
{
}

/// Every anchor in a kind's table lies within a device of that kind.
proof fn lemma_layout_inside(kind: DeviceKind, i: int)
    requires
        0 <= i < layout(kind).len(),
    ensures
        0 <= anchor_x(layout(kind)[i].x) <= Device::WIDTH,
        0 <= anchor_y(height_for(kind), layout(kind)[i].y) <= height_for(kind),
{
    lemma_table_anchors(kind, i);
    assert(height_for(kind) >= 40);
}

/// Every plugin of a device lies within the device's rectangle, edges
/// included.
pub proof fn lemma_plugins_inside(d: &Device, i: int)
    requires
        d.wf(),
        0 <= i < d.spec_plugins().len(),
    ensures
        d.spec_rectangle().encloses(d.plugin_at(i)),
{
    lemma_layout_inside(d.spec_kind(), i);
}

} // verus!
