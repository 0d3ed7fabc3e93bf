use rack_layout::{
    AlignX, AlignY, Device, DeviceKind, JumpCondition, Operation, Plugin, PluginColor,
    PluginDirection, PluginKind, Rect, Value, Vec2,
};

fn offsets(d: &Device) -> Vec<(i64, i64)> {
    d.plugins().iter().map(|p| (p.offset.x, p.offset.y)).collect()
}

fn kinds(d: &Device) -> Vec<(PluginKind, PluginDirection)> {
    d.plugins().iter().map(|p| (p.kind, p.direction)).collect()
}

fn all_kinds() -> Vec<DeviceKind> {
    vec![
        DeviceKind::Label(String::from("Test")),
        DeviceKind::Jump { is_not: false, condition: JumpCondition::Always },
        DeviceKind::Jump { is_not: true, condition: JumpCondition::Zero },
        DeviceKind::Math(Operation::Not),
        DeviceKind::Math(Operation::Mov),
        DeviceKind::Math(Operation::Add),
        DeviceKind::Immediate(Value::I32(-363)),
        DeviceKind::Call,
        DeviceKind::Ret,
    ]
}

#[test]
fn height_formula_values() {
    assert_eq!(Device::height_with_plugins(0), 10);
    assert_eq!(Device::height_with_plugins(1), 40);
    assert_eq!(Device::height_with_plugins(2), 70);
    assert_eq!(Device::height_with_plugins(3), 100);
    for n in 1u32..50 {
        let expected = 2 * Device::PLUGIN_SHARED_RADIUS * n as i64 + Device::PLUGIN_GAP * (n as i64 + 1);
        assert_eq!(Device::height_with_plugins(n), expected);
        assert!(Device::height_with_plugins(n) < Device::height_with_plugins(n + 1));
    }
}

#[test]
fn height_of_largest_count() {
    assert_eq!(Device::height_with_plugins(u32::MAX), 30 * u32::MAX as i64 + 10);
}

#[test]
fn plugin_coord_values() {
    assert_eq!(Device::plugin_coord(0), 20);
    assert_eq!(Device::plugin_coord(1), 50);
    assert_eq!(Device::plugin_coord(2), 80);
}

#[test]
fn plugin_position_anchors() {
    let p = Device::plugin_position(70, AlignX::RightFromLeft(1), AlignY::DownFromTop(0));
    assert_eq!((p.x, p.y), (50, 20));
    let p = Device::plugin_position(70, AlignX::LeftFromRight(0), AlignY::UpFromBottom(0));
    assert_eq!((p.x, p.y), (180, 50));
    let p = Device::plugin_position(70, AlignX::LeftFromCenter(0), AlignY::UpFromCenter(0));
    assert_eq!((p.x, p.y), (80, 15));
    let p = Device::plugin_position(70, AlignX::RightFromCenter(1), AlignY::DownFromCenter(1));
    assert_eq!((p.x, p.y), (150, 85));
    let p = Device::plugin_position(40, AlignX::HCenter, AlignY::VCenter);
    assert_eq!((p.x, p.y), (100, 20));
}

#[test]
fn label_layout() {
    let d = Device::new(Vec2::new(12, 1), DeviceKind::Label(String::from("Test")));
    assert_eq!(*d.rectangle(), Rect::new(12, 1, 200, 70));
    assert_eq!(offsets(&d), vec![(20, 20), (20, 50)]);
    assert_eq!(
        kinds(&d),
        vec![
            (PluginKind::Execution, PluginDirection::InOut),
            (PluginKind::Execution, PluginDirection::Out),
        ]
    );
}

#[test]
fn math_binary_layout() {
    let d = Device::new(Vec2::new(0, 0), DeviceKind::Math(Operation::Add));
    assert_eq!(d.rectangle().height, 70);
    assert_eq!(offsets(&d), vec![(20, 20), (20, 50), (50, 20), (80, 20), (50, 50)]);
    assert_eq!(
        kinds(&d),
        vec![
            (PluginKind::Execution, PluginDirection::In),
            (PluginKind::Execution, PluginDirection::Out),
            (PluginKind::Value, PluginDirection::In),
            (PluginKind::Value, PluginDirection::In),
            (PluginKind::Value, PluginDirection::Out),
        ]
    );
}

#[test]
fn math_unary_layout() {
    for op in [Operation::Not, Operation::Mov] {
        let d = Device::new(Vec2::new(0, 0), DeviceKind::Math(op));
        assert_eq!(offsets(&d), vec![(20, 20), (20, 50), (50, 20), (50, 50)]);
        assert_eq!(
            kinds(&d),
            vec![
                (PluginKind::Execution, PluginDirection::In),
                (PluginKind::Execution, PluginDirection::Out),
                (PluginKind::Value, PluginDirection::In),
                (PluginKind::Value, PluginDirection::Out),
            ]
        );
    }
}

#[test]
fn jump_layouts() {
    let d = Device::new(Vec2::new(0, 0), DeviceKind::Jump { is_not: false, condition: JumpCondition::Always });
    assert_eq!(d.rectangle().height, 70);
    assert_eq!(offsets(&d), vec![(20, 20), (180, 35)]);
    let d = Device::new(Vec2::new(0, 0), DeviceKind::Jump { is_not: true, condition: JumpCondition::Carry });
    assert_eq!(offsets(&d), vec![(20, 20), (50, 20), (180, 35), (20, 50)]);
    assert_eq!(
        kinds(&d),
        vec![
            (PluginKind::Execution, PluginDirection::In),
            (PluginKind::Value, PluginDirection::In),
            (PluginKind::Execution, PluginDirection::Out),
            (PluginKind::Execution, PluginDirection::Out),
        ]
    );
}

#[test]
fn immediate_call_ret_layouts() {
    let d = Device::new(Vec2::new(0, 0), DeviceKind::Immediate(Value::U32(654)));
    assert_eq!(d.rectangle().height, 40);
    assert_eq!(offsets(&d), vec![(180, 20)]);
    assert_eq!(kinds(&d), vec![(PluginKind::Value, PluginDirection::Out)]);
    let d = Device::new(Vec2::new(0, 0), DeviceKind::Call);
    assert_eq!(d.rectangle().height, 70);
    assert_eq!(offsets(&d), vec![(20, 20), (180, 35), (20, 50)]);
    assert_eq!(kinds(&d)[1], (PluginKind::Execution, PluginDirection::InOut));
    let d = Device::new(Vec2::new(0, 0), DeviceKind::Ret);
    assert_eq!(d.rectangle().height, 40);
    assert_eq!(offsets(&d), vec![(20, 20)]);
}

#[test]
fn plugins_lie_inside_device() {
    for kind in all_kinds() {
        let d = Device::new(Vec2::new(12, 300), kind);
        let r = *d.rectangle();
        for c in d.plugin_centers() {
            assert!(r.x <= c.x && c.x <= r.x + r.width);
            assert!(r.y <= c.y && c.y <= r.y + r.height);
        }
    }
}

#[test]
fn move_y_shifts_only_y() {
    let mut d = Device::new(Vec2::new(12, 1), DeviceKind::Math(Operation::Sub));
    let before = d.plugin_centers();
    let offsets_before = offsets(&d);
    d.move_y(25);
    assert_eq!(*d.rectangle(), Rect::new(12, 26, 200, 70));
    assert_eq!(offsets(&d), offsets_before);
    let after = d.plugin_centers();
    for (a, b) in after.iter().zip(before.iter()) {
        assert_eq!((a.x, a.y), (b.x, b.y + 25));
    }
    d.move_y(-30);
    assert_eq!(d.position(), Vec2::new(12, -4));
}

#[test]
fn set_y_and_bottom() {
    let mut d = Device::new(Vec2::new(12, 1), DeviceKind::Ret);
    d.set_y(100);
    assert_eq!(d.position(), Vec2::new(12, 100));
    assert_eq!(d.bottom_y(), 140);
}

#[test]
fn drawing_geometry() {
    let d = Device::new(Vec2::new(12, 1), DeviceKind::Label(String::from("Test")));
    let (top, bottom) = d.connector_rectangles();
    assert_eq!(top, Rect::new(0, 3, 224, 12));
    assert_eq!(bottom, Rect::new(0, 57, 224, 12));
    let bolts = d.bolt_centers();
    assert_eq!(bolts, [Vec2::new(6, 9), Vec2::new(218, 9), Vec2::new(218, 63), Vec2::new(6, 63)]);
    assert_eq!(d.grip_rectangle(), Rect::new(13, 2, 198, 68));
    let (text, at) = d.caption().unwrap();
    assert_eq!(text, "Test");
    assert_eq!(at, Vec2::new(53, 11));
}

#[test]
fn caption_of_immediate_and_others() {
    let d = Device::new(Vec2::new(12, 72), DeviceKind::Immediate(Value::I32(-363)));
    let (text, at) = d.caption().unwrap();
    assert_eq!(text, "-363");
    assert_eq!(at, Vec2::new(23, 82));
    let d = Device::new(Vec2::new(12, 72), DeviceKind::Call);
    assert!(d.caption().is_none());
}

#[test]
fn value_formatting() {
    assert_eq!(Value::I32(-363).to_string(), "-363");
    assert_eq!(Value::U32(654).to_string(), "654u");
    assert_eq!(Value::F32(5630).to_string(), "5.630");
}

#[test]
fn value_formatting_edges() {
    assert_eq!(Value::I32(0).to_string(), "0");
    assert_eq!(Value::I32(i32::MIN).to_string(), "-2147483648");
    assert_eq!(Value::I32(i32::MAX).to_string(), "2147483647");
    assert_eq!(Value::U32(0).to_string(), "0u");
    assert_eq!(Value::U32(u32::MAX).to_string(), "4294967295u");
    assert_eq!(Value::F32(0).to_string(), "0.000");
    assert_eq!(Value::F32(-500).to_string(), "-0.500");
    assert_eq!(Value::F32(-12345).to_string(), "-12.345");
    assert_eq!(Value::F32(7).to_string(), "0.007");
    assert_eq!(Value::F32(i64::MIN).to_string(), "-9223372036854775.808");
}

#[test]
fn plugin_constructors_and_colors() {
    let o = Vec2::new(3, 4);
    let cases = [
        (Plugin::exec_in(o), PluginColor::Gray, 8),
        (Plugin::exec_out(o), PluginColor::LightGray, 8),
        (Plugin::exec_inout(o), PluginColor::Green, 8),
        (Plugin::value_in(o), PluginColor::Blue, 5),
        (Plugin::value_out(o), PluginColor::Red, 5),
        (Plugin::value_inout(o), PluginColor::Violet, 5),
    ];
    for (p, color, radius) in cases {
        assert_eq!(p.color(), color);
        assert_eq!(p.radius(), radius);
        assert_eq!(p.offset, o);
    }
    let p = Plugin::value_inout(o);
    assert!(p.is_in_out() && !p.is_input() && !p.is_output());
    assert!(p.is_variable() && !p.is_execution());
    let p = Plugin::exec_in(o);
    assert!(p.is_input() && p.is_execution());
    assert!(Plugin::exec_out(o).is_output());
}

#[test]
fn kind_and_direction_predicates() {
    assert_eq!(PluginKind::Execution.radius(), 8);
    assert_eq!(PluginKind::Value.radius(), 5);
    assert!(PluginKind::Execution.is_execution() && !PluginKind::Execution.is_variable());
    assert!(PluginKind::Value.is_variable() && !PluginKind::Value.is_execution());
    assert!(PluginDirection::In.is_input() && !PluginDirection::In.is_output());
    assert!(PluginDirection::Out.is_output() && !PluginDirection::Out.is_in_out());
    assert!(PluginDirection::InOut.is_in_out() && !PluginDirection::InOut.is_input());
}
