use inputplumber::fraction::{normalize, AxisRange, Fraction};
use inputplumber::native::{Capability, InputValue, NativeEvent, Touch, Touchpad};
use inputplumber::opineo::{
    normalize_axis_value, touchpad_side, translate_event, translate_events, OrangePiNeoTouchpad,
    TouchAxisInput, TouchpadEvent, TouchpadSide,
};

#[test]
fn normalization_boundaries() {
    let stick = AxisRange::new(0, 255).unwrap();
    assert_eq!(normalize(0, stick), Fraction { num: 0, den: 255 });
    assert_eq!(normalize(255, stick), Fraction { num: 255, den: 255 });
    assert_eq!(normalize(300, stick), Fraction { num: 255, den: 255 });
    let wheel = AxisRange::new(128, 255).unwrap();
    assert_eq!(normalize(100, wheel), Fraction { num: 0, den: 127 });
    assert_eq!(normalize(200, wheel), Fraction { num: 72, den: 127 });
}

#[test]
fn normalization_is_monotonic() {
    let wheel = AxisRange::new(128, 255).unwrap();
    let mut last = normalize(0, wheel);
    for raw in 1..300u32 {
        let next = normalize(raw, wheel);
        assert!(!next.is_less_than(&last));
        last = next;
    }
}

#[test]
fn zero_width_domain_is_refused() {
    assert_eq!(AxisRange::new(5, 5), None);
    assert_eq!(AxisRange::new(6, 5), None);
}

#[test]
fn touch_absent_when_not_touching() {
    let v = normalize_axis_value(TouchAxisInput { index: 1, is_touching: false, x: 0, y: 0 });
    assert_eq!(
        v,
        InputValue::Touch { index: 1, is_touching: false, pressure: Some(Fraction { num: 1, den: 1 }), x: None, y: None }
    );
    let v = normalize_axis_value(TouchAxisInput { index: 0, is_touching: false, x: 700, y: 300 });
    assert!(matches!(v, InputValue::Touch { x: None, y: None, .. }));
}

#[test]
fn touch_position_normalized_when_touching() {
    let v = normalize_axis_value(TouchAxisInput { index: 0, is_touching: true, x: 512, y: 1024 });
    assert_eq!(
        v,
        InputValue::Touch {
            index: 0,
            is_touching: true,
            pressure: Some(Fraction { num: 1, den: 1 }),
            x: Some(Fraction { num: 512, den: 1024 }),
            y: Some(Fraction { num: 1024, den: 1024 }),
        }
    );
    let v = normalize_axis_value(TouchAxisInput { index: 0, is_touching: true, x: 0, y: 0 });
    assert!(matches!(v, InputValue::Touch { x: Some(Fraction { num: 0, .. }), y: Some(Fraction { num: 0, .. }), .. }));
}

#[test]
fn pad_side_from_name() {
    assert_eq!(touchpad_side("OPI0001:00"), TouchpadSide::Left);
    assert_eq!(touchpad_side("OPI0002:00"), TouchpadSide::Right);
    assert_eq!(touchpad_side("OPI0003:00"), TouchpadSide::Unknown);
    assert_eq!(touchpad_side(""), TouchpadSide::Unknown);
    assert_eq!(OrangePiNeoTouchpad::new("OPI0002:00").get_side(), TouchpadSide::Right);
}

#[test]
fn events_follow_the_side() {
    let e = TouchpadEvent::TouchAxis(TouchAxisInput { index: 0, is_touching: true, x: 256, y: 0 });
    assert_eq!(
        translate_event(e, TouchpadSide::Unknown),
        NativeEvent { capability: Capability::NotImplemented, value: InputValue::Bool(false) }
    );
    let left = translate_event(e, TouchpadSide::Left);
    assert_eq!(left.capability, Capability::Touchpad(Touchpad::LeftPad(Touch::Motion)));
    assert!(matches!(left.value, InputValue::Touch { x: Some(Fraction { num: 256, den: 1024 }), .. }));
    let right = translate_events(vec![e, e], TouchpadSide::Right);
    assert_eq!(right.len(), 2);
    assert_eq!(right[1].capability, Capability::Touchpad(Touchpad::RightPad(Touch::Motion)));
    let pad = OrangePiNeoTouchpad::new("OPI0001:00");
    assert_eq!(pad.poll(vec![e]), vec![left]);
    assert_eq!(
        pad.get_capabilities(),
        vec![
            Capability::Touchpad(Touchpad::LeftPad(Touch::Motion)),
            Capability::Touchpad(Touchpad::RightPad(Touch::Motion)),
        ]
    );
}
