//! Device-independent events: what an input is (its capability) and the
//! value it carries.
use vstd::prelude::*;

use crate::event::{AxisName, ButtonName};
use crate::fraction::Fraction;

verus! {

/// Target-side actions of the signal bus.
#[derive(Clone, Copy, Debug, PartialEq, Eq, Structural)]
pub enum Action {
    /// No action: events carrying it are never emitted.
    NoAction,
    Guide,
    Quick,
    Quick2,
    Context,
    Options,
    Select,
    Accept,
    Back,
    ActOn,
    Left,
    Right,
    Up,
    Down,
    L1,
    L2,
    L3,
    R1,
    R2,
    R3,
    VolumeUp,
    VolumeDown,
    VolumeMute,
    Keyboard,
    Screenshot,
    Touch,
}

/// Kinds of touch input.
#[derive(Clone, Copy, Debug, PartialEq, Eq, Structural)]
pub enum Touch {
    Motion,
}

/// Touch surfaces.
#[derive(Clone, Copy, Debug, PartialEq, Eq, Structural)]
pub enum Touchpad {
    LeftPad(Touch),
    RightPad(Touch),
}

/// Gamepad inputs.
#[derive(Clone, Copy, Debug, PartialEq, Eq, Structural)]
pub enum Gamepad {
    Axis(AxisName),
    Button(ButtonName),
}

/// What kind of input an event is.
#[derive(Clone, Copy, Debug, PartialEq, Eq, Structural)]
pub enum Capability {
    NotImplemented,
    Gamepad(Gamepad),
    Touchpad(Touchpad),
    DBus(Action),
}

/// The value an event carries. Analog values are exact fractions in the
/// unit interval.
#[derive(Clone, Copy, Debug, PartialEq, Eq, Structural)]
pub enum InputValue {
    Bool(bool),
    Float(Fraction),
    /// A contact on a touch surface; `x` and `y` are absent when there is no
    /// contact, since zero is a valid position.
    Touch {
        index: u8,
        is_touching: bool,
        pressure: Option<Fraction>,
        x: Option<Fraction>,
        y: Option<Fraction>,
    },
}

/// A device-independent input event.
#[derive(Clone, Copy, Debug, PartialEq, Eq, Structural)]
pub struct NativeEvent {
    pub capability: Capability,
    pub value: InputValue,
}

impl NativeEvent {
    /// An event of the given capability carrying `value`.
    pub fn new(capability: Capability, value: InputValue) -> (r: NativeEvent)
        ensures
            r.capability == capability,
            r.value == value,
    {
        NativeEvent { capability, value }
    }
}

} // verus!
