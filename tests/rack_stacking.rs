use rack_layout::{
    Device, DeviceKind, Operation, Rack, RackError, Rect, Value, Vec2, Viewport,
};

fn empty_rack() -> Rack {
    Rack::new(Viewport::new(Rect::new(0, 0, 1280, 720)))
}

fn ys(rack: &Rack) -> Vec<i64> {
    rack.devices.iter().map(|d| d.rectangle().y).collect()
}

fn assert_stacked(rack: &Rack) {
    for d in rack.devices.iter() {
        assert_eq!(d.rectangle().x, Rack::BEAM_WIDTH);
    }
    if let Some(first) = rack.devices.first() {
        assert_eq!(first.rectangle().y, Rack::DEVICE_GAP);
    }
    for pair in rack.devices.windows(2) {
        let (a, b) = (pair[0].rectangle(), pair[1].rectangle());
        assert_eq!(b.y, a.y + a.height + Rack::DEVICE_GAP);
        assert!(a.y < b.y);
    }
}

#[test]
fn insert_label_into_empty_rack() {
    let mut rack = empty_rack();
    assert_eq!(rack.insert_device(0, DeviceKind::Label(String::from("Test"))), Ok(0));
    assert_eq!(rack.devices.len(), 1);
    let r = *rack.devices[0].rectangle();
    assert_eq!(r, Rect::new(Rack::BEAM_WIDTH, Rack::DEVICE_GAP, Device::WIDTH, 70));
}

#[test]
fn insert_four_devices_in_order() {
    let mut rack = empty_rack();
    assert_eq!(rack.insert_device(0, DeviceKind::Label(String::from("Test"))), Ok(0));
    assert_eq!(rack.insert_device(1, DeviceKind::Immediate(Value::I32(-363))), Ok(1));
    assert_eq!(rack.insert_device(2, DeviceKind::Immediate(Value::U32(654))), Ok(2));
    assert_eq!(rack.insert_device(3, DeviceKind::Immediate(Value::F32(5630))), Ok(3));
    assert_eq!(ys(&rack), vec![1, 72, 113, 154]);
    let texts: Vec<String> = rack.devices.iter().map(|d| d.caption().unwrap().0).collect();
    assert_eq!(texts, vec!["Test", "-363", "654u", "5.630"]);
    assert_stacked(&rack);
    for pair in rack.devices.windows(2) {
        assert!(pair[0].bottom_y() < pair[1].rectangle().y);
    }
}

#[test]
fn insert_at_front_pushes_existing_down() {
    let mut rack = empty_rack();
    rack.insert_device(0, DeviceKind::Ret).unwrap();
    rack.devices[0].set_y(10);
    let new_kind = DeviceKind::Label(String::from("Top"));
    rack.insert_device(0, new_kind).unwrap();
    let new_height = rack.devices[0].rectangle().height;
    assert_eq!(new_height, 70);
    assert_eq!(rack.devices[0].rectangle().y, Rack::DEVICE_GAP);
    assert_eq!(rack.devices[1].rectangle().y, 10 + new_height + Rack::DEVICE_GAP);
}

#[test]
fn insert_shifts_by_new_device_height() {
    let mut rack = empty_rack();
    rack.insert_device(0, DeviceKind::Label(String::from("a"))).unwrap();
    rack.insert_device(1, DeviceKind::Label(String::from("b"))).unwrap();
    assert_eq!(ys(&rack), vec![1, 72]);
    // a one-row device between two two-row devices moves the lower one by 41
    rack.insert_device(1, DeviceKind::Ret).unwrap();
    assert_eq!(ys(&rack), vec![1, 72, 113]);
    assert_stacked(&rack);
}

#[test]
fn insert_past_end_is_rejected() {
    let mut rack = empty_rack();
    assert_eq!(rack.insert_device(1, DeviceKind::Call), Err(RackError::IndexOutOfRange));
    assert!(rack.devices.is_empty());
    rack.insert_device(0, DeviceKind::Call).unwrap();
    assert_eq!(rack.insert_device(2, DeviceKind::Ret), Err(RackError::IndexOutOfRange));
    assert_eq!(ys(&rack), vec![1]);
}

#[test]
fn any_insertion_order_keeps_stack() {
    let mut rack = empty_rack();
    let kinds = [
        DeviceKind::Math(Operation::Add),
        DeviceKind::Ret,
        DeviceKind::Immediate(Value::U32(1)),
        DeviceKind::Call,
        DeviceKind::Label(String::from("x")),
        DeviceKind::Math(Operation::Not),
    ];
    let mut step: usize = 0;
    for round in 0..4usize {
        for kind in kinds.iter() {
            let index = (step * 7 + round) % (rack.devices.len() + 1);
            assert_eq!(rack.insert_device(index, kind.clone()), Ok(index));
            assert_stacked(&rack);
            step += 1;
        }
    }
    assert_eq!(rack.devices.len(), 24);
}

#[test]
fn beams_bound_the_column() {
    let rack = empty_rack();
    let (left, right) = rack.beam_rectangles();
    assert_eq!(left, Rect::new(0, 0, 12, 720));
    assert_eq!(right, Rect::new(212, 0, 12, 720));
}

#[test]
fn viewport_region_and_overlap() {
    let v = Viewport::new(Rect::new(10, 20, 100, 50));
    assert_eq!(v.size(), Vec2::new(100, 50));
    assert_eq!(v.viewpoint(), Vec2::new(0, 0));
    assert!(v.is_overlapping(Vec2::new(10, 20)));
    assert!(v.is_overlapping(Vec2::new(109, 69)));
    assert!(!v.is_overlapping(Vec2::new(110, 30)));
    assert!(!v.is_overlapping(Vec2::new(50, 70)));
    assert!(!v.is_overlapping(Vec2::new(9, 30)));
}
