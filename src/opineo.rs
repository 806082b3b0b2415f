//! The touchpads of the OrangePi Neo: telling the left pad from the right
//! and turning their raw touch samples into normalized native events.
use vstd::prelude::*;
use vstd::string::StringSliceAdditionalSpecFns;

use crate::fraction::{normalize, normalized, AxisRange, Fraction};
use crate::native::{Capability, InputValue, NativeEvent, Touch, Touchpad};

verus! {

/// Largest raw touch coordinate on each axis.
pub const PAD_X_MAX: u32 = 1024;
pub const PAD_Y_MAX: u32 = 1024;

/// Which of the two pads a device is; `Unknown` when its name matches
/// neither.
#[derive(Clone, Copy, Debug, PartialEq, Eq, Structural)]
pub enum TouchpadSide {
    Unknown,
    Left,
    Right,
}

/// One raw touch sample.
#[derive(Clone, Copy, Debug, PartialEq, Eq, Structural)]
pub struct TouchAxisInput {
    pub index: u8,
    pub is_touching: bool,
    pub x: u16,
    pub y: u16,
}

/// Events of the touchpad driver.
#[derive(Clone, Copy, Debug, PartialEq, Eq, Structural)]
pub enum TouchpadEvent {
    TouchAxis(TouchAxisInput),
}

/// Raw domain of the touch X axis.
pub open spec fn pad_x_range() -> AxisRange {
    AxisRange { min: 0, max: PAD_X_MAX }
}

/// Raw domain of the touch Y axis.
pub open spec fn pad_y_range() -> AxisRange {
    AxisRange { min: 0, max: PAD_Y_MAX }
}

/// The device name of the left pad, `OPI0001:00`, as bytes.
pub open spec fn left_pad_name() -> Seq<u8> {
    seq![0x4fu8, 0x50, 0x49, 0x30, 0x30, 0x30, 0x31, 0x3a, 0x30, 0x30]
}

/// The device name of the right pad, `OPI0002:00`, as bytes.
pub open spec fn right_pad_name() -> Seq<u8> {
    seq![0x4fu8, 0x50, 0x49, 0x30, 0x30, 0x30, 0x32, 0x3a, 0x30, 0x30]
}

/// The side that a device name identifies.
pub open spec fn side_of_name(name: Seq<u8>) -> TouchpadSide {
    if name == left_pad_name() {
        TouchpadSide::Left
    } else if name == right_pad_name() {
        TouchpadSide::Right
    } else {
        TouchpadSide::Unknown
    }
}

/// The normalized touch value of a sample: position scaled into `[0, 1]`
/// while touching, absent otherwise; full pressure.
pub open spec fn touch_value(event: TouchAxisInput) -> InputValue {
    InputValue::Touch {
        index: event.index,
        is_touching: event.is_touching,
        pressure: Some(Fraction { num: 1, den: 1 }),
        x: if event.is_touching {
            Some(normalized(event.x as u32, pad_x_range()))
        } else {
            None
        },
        y: if event.is_touching {
            Some(normalized(event.y as u32, pad_y_range()))
        } else {
            None
        },
    }
}

/// The native event of a touchpad event, given the pad's side.
pub open spec fn native_of(event: TouchpadEvent, side: TouchpadSide) -> NativeEvent {
    match event {
        TouchpadEvent::TouchAxis(axis) => match side {
            TouchpadSide::Unknown => NativeEvent {
                capability: Capability::NotImplemented,
                value: InputValue::Bool(false),
            },
            TouchpadSide::Left => NativeEvent {
                capability: Capability::Touchpad(Touchpad::LeftPad(Touch::Motion)),
                value: touch_value(axis),
            },
            TouchpadSide::Right => NativeEvent {
                capability: Capability::Touchpad(Touchpad::RightPad(Touch::Motion)),
                value: touch_value(axis),
            },
        },
    }
}

/// Whether `b` equals `expected`, byte for byte.
fn bytes_equal(b: &[u8], expected: &[u8]) -> (r: bool)
    ensures
        r == (b@ == expected@),
{
    if b.len() != expected.len() {
        return false;
    }
    let mut i: usize = 0;
    while i < b.len()
        invariant
            b@.len() == expected@.len(),
            0 <= i <= b@.len(),
            forall|j: int| 0 <= j < i ==> b@[j] == expected@[j],
        decreases b@.len() - i,
    {
        if b[i] != expected[i] {
            return false;
        }
        i = i + 1;
    }
    assert(b@ =~= expected@);
    true
}

/// Identifies the pad side from the device name.
pub fn touchpad_side(name: &str) -> (r: TouchpadSide)
    ensures
        r == side_of_name(name.spec_bytes()),
{
    let b = name.as_bytes();
    let left: [u8; 10] = [0x4f, 0x50, 0x49, 0x30, 0x30, 0x30, 0x31, 0x3a, 0x30, 0x30];
    let right: [u8; 10] = [0x4f, 0x50, 0x49, 0x30, 0x30, 0x30, 0x32, 0x3a, 0x30, 0x30];
    assert(left@ =~= left_pad_name());
    assert(right@ =~= right_pad_name());
    if bytes_equal(b, left.as_slice()) {
        TouchpadSide::Left
    } else if bytes_equal(b, right.as_slice()) {
        TouchpadSide::Right
    } else {
        TouchpadSide::Unknown
    }
}

/// Scales a raw touch sample into the unit interval on each axis; while the
/// pad is not touched the position is absent, whatever the raw coordinates.
pub fn normalize_axis_value(event: TouchAxisInput) -> (r: InputValue)
    ensures
        r == touch_value(event),
{
    let x_range = AxisRange { min: 0, max: PAD_X_MAX };
    let y_range = AxisRange { min: 0, max: PAD_Y_MAX };
    let x = normalize(event.x as u32, x_range);
    let y = normalize(event.y as u32, y_range);
    let (x, y) = if !event.is_touching {
        (None, None)
    } else {
        (Some(x), Some(y))
    };
    InputValue::Touch {
        index: event.index,
        is_touching: event.is_touching,
        pressure: Some(Fraction::one()),
        x,
        y,
    }
}

/// Translates one touchpad event into a native event for the given side.
pub fn translate_event(event: TouchpadEvent, touchpad_side: TouchpadSide) -> (r: NativeEvent)
    ensures
        r == native_of(event, touchpad_side),
{
    match event {
        TouchpadEvent::TouchAxis(axis) => match touchpad_side {
            TouchpadSide::Unknown => NativeEvent::new(
                Capability::NotImplemented,
                InputValue::Bool(false),
            ),
            TouchpadSide::Left => NativeEvent::new(
                Capability::Touchpad(Touchpad::LeftPad(Touch::Motion)),
                normalize_axis_value(axis),
            ),
            TouchpadSide::Right => NativeEvent::new(
                Capability::Touchpad(Touchpad::RightPad(Touch::Motion)),
                normalize_axis_value(axis),
            ),
        },
    }
}

/// Translates touchpad events one for one, in order.
pub fn translate_events(events: Vec<TouchpadEvent>, touchpad_side: TouchpadSide) -> (r: Vec<
    NativeEvent,
>)
    ensures
        r@.len() == events@.len(),
        forall|i: int| 0 <= i < events@.len() ==> r@[i] == native_of(events@[i], touchpad_side),
{
    let mut translated: Vec<NativeEvent> = Vec::with_capacity(events.len());
    let mut i: usize = 0;
    while i < events.len()
        invariant
            0 <= i <= events@.len(),
            translated@.len() == i,
            forall|j: int| 0 <= j < i ==> translated@[j] == native_of(events@[j], touchpad_side),
        decreases events@.len() - i,
    {
        translated.push(translate_event(events[i], touchpad_side));
        i = i + 1;
    }
    translated
}

/// A touchpad source device of the OrangePi Neo.
pub struct OrangePiNeoTouchpad {
    side: TouchpadSide,
}

impl OrangePiNeoTouchpad {
    /// A touchpad device named `name`; its side is detected from the name.
    pub fn new(name: &str) -> (r: OrangePiNeoTouchpad)
        ensures
            r.side() == side_of_name(name.spec_bytes()),
    {
        OrangePiNeoTouchpad { side: touchpad_side(name) }
    }

    /// The side detected when the device was created.
    pub closed spec fn side(&self) -> TouchpadSide {
        self.side
    }

    /// The detected side.
    pub fn get_side(&self) -> (r: TouchpadSide)
        ensures
            r == self.side(),
    {
        self.side
    }

    /// Translates the events read from the pad into native events.
    pub fn poll(&self, events: Vec<TouchpadEvent>) -> (r: Vec<NativeEvent>)
        ensures
            r@.len() == events@.len(),
            forall|i: int| 0 <= i < events@.len() ==> r@[i] == native_of(events@[i], self.side()),
    {
        translate_events(events, self.side)
    }

    /// The inputs this device can ever emit.
    pub fn get_capabilities(&self) -> (r: Vec<Capability>)
        ensures
            r@ == seq![
                Capability::Touchpad(Touchpad::LeftPad(Touch::Motion)),
                Capability::Touchpad(Touchpad::RightPad(Touch::Motion)),
            ],
    {
        let caps = vec![
            Capability::Touchpad(Touchpad::LeftPad(Touch::Motion)),
            Capability::Touchpad(Touchpad::RightPad(Touch::Motion)),
        ];
        assert(caps@ =~= seq![
            Capability::Touchpad(Touchpad::LeftPad(Touch::Motion)),
            Capability::Touchpad(Touchpad::RightPad(Touch::Motion)),
        ]);
        caps
    }
}

/// Without contact the position is absent whatever the raw coordinates;
/// with contact it is present and within the unit interval.
pub proof fn lemma_touch_absence(event: TouchAxisInput)
    ensures
        !event.is_touching ==> touch_value(event) matches InputValue::Touch { x: None, y: None, .. },
        event.is_touching ==> (touch_value(event) matches InputValue::Touch {
            x: Some(x),
            y: Some(y),
            ..
        } && x.in_unit() && y.in_unit()),
{
}

} // verus!
