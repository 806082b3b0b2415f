use inputplumber::driver::Driver;
use inputplumber::event::{AccelerometerName, AxisName, ButtonName, Event, TriggerName};
use inputplumber::report::{classify, PacketKind, PollError, ReportFamily};
use inputplumber::xinput::{xinput_diff, XInputDataReport};

fn gamepad_packet() -> Vec<u8> {
    let mut p = vec![0u8; 60];
    p[0] = 0x04;
    p[1] = 60;
    p
}

fn samples(p: &[u8]) -> Vec<Event> {
    vec![
        Event::Accelerometer { name: AccelerometerName::LeftAccelerometer, x: p[28] as u16, y: p[29] as u16 },
        Event::Accelerometer { name: AccelerometerName::RightAccelerometer, x: p[30] as u16, y: p[31] as u16 },
    ]
}

fn edge_events(events: &[Event]) -> Vec<Event> {
    events.iter().copied().filter(|e| !matches!(e, Event::Accelerometer { .. })).collect()
}

#[test]
fn gamepad_button_press_then_repeat() {
    let mut driver = Driver::new();
    let mut released = gamepad_packet();
    released[28] = 3;
    released[29] = 4;
    let mut pressed = released.clone();
    pressed[19] = 0x80;

    let first = driver.poll(&released).unwrap();
    assert_eq!(first, samples(&released));

    let second = driver.poll(&pressed).unwrap();
    assert_eq!(edge_events(&second), vec![Event::Button { name: ButtonName::A, pressed: true }]);
    let mut expected = vec![Event::Button { name: ButtonName::A, pressed: true }];
    expected.extend(samples(&pressed));
    assert_eq!(second, expected);

    let third = driver.poll(&pressed).unwrap();
    assert_eq!(edge_events(&third), vec![]);
    assert_eq!(third, samples(&pressed));
}

#[test]
fn repeated_packet_is_quiet_for_every_family() {
    let families: [(u8, usize); 6] = [(0x07, 13), (0x08, 13), (0x01, 15), (0x01, 21), (0x09, 8), (0x02, 8)];
    for (id, size) in families {
        let mut driver = Driver::new();
        let mut p = vec![0x5au8; size];
        p[0] = id;
        p[1] = size as u8;
        assert_eq!(driver.poll(&p), Ok(vec![]));
        assert_eq!(driver.poll(&p), Ok(vec![]));
    }
    let mut driver = Driver::new();
    let p = gamepad_packet();
    driver.poll(&p).unwrap();
    assert_eq!(driver.poll(&p).unwrap(), samples(&p));
}

#[test]
fn single_button_change_yields_one_event() {
    let mut driver = Driver::new();
    let p = gamepad_packet();
    let mut q = p.clone();
    q[21] = 0x80;
    driver.poll(&p).unwrap();
    let events = driver.poll(&q).unwrap();
    let mut expected = vec![Event::Button { name: ButtonName::Y1, pressed: true }];
    expected.extend(samples(&q));
    assert_eq!(events, expected);

    let back = driver.poll(&p).unwrap();
    assert_eq!(edge_events(&back), vec![Event::Button { name: ButtonName::Y1, pressed: false }]);
}

#[test]
fn stick_y_change_yields_one_axis_event() {
    let mut driver = Driver::new();
    let mut p = gamepad_packet();
    p[12] = 10;
    p[13] = 20;
    let mut q = p.clone();
    q[13] = 200;
    driver.poll(&p).unwrap();
    let events = driver.poll(&q).unwrap();
    assert_eq!(edge_events(&events), vec![Event::Axis { name: AxisName::LStick, x: 10, y: 200 }]);
}

#[test]
fn malformed_packet_leaves_state_untouched() {
    let mut driver = Driver::new();
    let p = gamepad_packet();
    let mut q = p.clone();
    q[19] = 0x80;
    driver.poll(&p).unwrap();

    let mut bad = q.clone();
    bad[1] = 59;
    assert_eq!(
        driver.poll(&bad),
        Err(PollError::MalformedPacket { report_id: 0x04, expected: 60, declared: 59, actual: 60 })
    );
    let events = driver.poll(&q).unwrap();
    assert_eq!(edge_events(&events), vec![Event::Button { name: ButtonName::A, pressed: true }]);
}

#[test]
fn short_read_is_malformed() {
    let mut driver = Driver::new();
    let p = gamepad_packet();
    assert_eq!(
        driver.poll(&p[..30]),
        Err(PollError::MalformedPacket { report_id: 0x04, expected: 60, declared: 60, actual: 30 })
    );
}

#[test]
fn keyboard_id_with_unknown_size_is_malformed() {
    let mut p = vec![0u8; 16];
    p[0] = 0x01;
    p[1] = 16;
    assert_eq!(
        classify(&p),
        PacketKind::Malformed(PollError::MalformedPacket { report_id: 0x01, expected: 15, declared: 16, actual: 16 })
    );
}

#[test]
fn keyboard_and_touchpad_told_apart_by_size() {
    let mut k = vec![0u8; 15];
    k[0] = 0x01;
    k[1] = 15;
    let mut t = vec![0u8; 21];
    t[0] = 0x01;
    t[1] = 21;
    assert_eq!(classify(&k), PacketKind::Family(ReportFamily::Keyboard));
    assert_eq!(classify(&t), PacketKind::Family(ReportFamily::Touchpad));
}

#[test]
fn unknown_report_id_is_ignored() {
    let mut driver = Driver::new();
    let p = vec![0x33u8, 2];
    assert_eq!(driver.poll(&p), Ok(vec![]));
    assert_eq!(classify(&[]), PacketKind::Unrecognized);
}

#[test]
fn gamepad_packet_unpacks_fields() {
    let mut p = gamepad_packet();
    p[18] = 0x80 | 0x04;
    p[19] = 0x40 | 0x01;
    p[20] = 0x80;
    p[21] = 0x08 | 0x01;
    p[22] = 7;
    p[23] = 9;
    p[24] = 0x34;
    p[25] = 0x12;
    p[26] = 0xff;
    p[27] = 0x03;
    p[32] = 200;
    let r = XInputDataReport::unpack(&p);
    assert!(r.buttons.thumb_l && r.buttons.right && !r.buttons.up);
    assert!(r.buttons.b && r.buttons.d_trigger_r && !r.buttons.a);
    assert!(r.buttons.legion && !r.buttons.menu);
    assert!(r.buttons.m2 && r.buttons.mouse_click && !r.buttons.m3);
    assert_eq!((r.a_trigger_l, r.a_trigger_r, r.mouse_z), (7, 9, 200));
    assert_eq!((r.touch_x, r.touch_y), (0x1234, 0x03ff));
}

#[test]
fn axes_and_triggers_in_order() {
    let p = gamepad_packet();
    let mut q = p.clone();
    q[19] = 0x80;
    q[24] = 1;
    q[15] = 5;
    q[22] = 100;
    q[32] = 1;
    let o = XInputDataReport::unpack(&p);
    let n = XInputDataReport::unpack(&q);
    let events = xinput_diff(&o, &n);
    let mut expected = vec![
        Event::Button { name: ButtonName::A, pressed: true },
        Event::Axis { name: AxisName::Touchpad, x: 1, y: 0 },
        Event::Axis { name: AxisName::RStick, x: 0, y: 5 },
        Event::Trigger { name: TriggerName::ATriggerL, value: 100 },
        Event::Trigger { name: TriggerName::MouseWheel, value: 1 },
    ];
    expected.extend(samples(&q));
    assert_eq!(events, expected);
}
