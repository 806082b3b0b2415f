//! Semantic input events produced by the controller driver.
use vstd::prelude::*;

verus! {

/// Digital inputs of the controller, in the order their changes are reported.
#[derive(Clone, Copy, Debug, PartialEq, Eq, Structural)]
pub enum ButtonName {
    A,
    X,
    B,
    Y,
    Menu,
    View,
    Legion,
    QuickAccess,
    DPadDown,
    DPadUp,
    DPadLeft,
    DPadRight,
    LB,
    RB,
    DTriggerL,
    DTriggerR,
    M2,
    M3,
    Y1,
    Y2,
    Y3,
    MouseClick,
    ThumbL,
    ThumbR,
}

/// Two-component axes, always reported as one X/Y pair.
#[derive(Clone, Copy, Debug, PartialEq, Eq, Structural)]
pub enum AxisName {
    Touchpad,
    LStick,
    RStick,
}

/// Single-component analog inputs.
#[derive(Clone, Copy, Debug, PartialEq, Eq, Structural)]
pub enum TriggerName {
    ATriggerL,
    ATriggerR,
    MouseWheel,
}

/// Motion sensors, sampled on every report.
#[derive(Clone, Copy, Debug, PartialEq, Eq, Structural)]
pub enum AccelerometerName {
    LeftAccelerometer,
    RightAccelerometer,
}

/// One semantic input event, carrying the raw values of the new report.
#[allow(inconsistent_fields)]
#[derive(Clone, Copy, Debug, PartialEq, Eq, Structural)]
pub enum Event {
    Button { name: ButtonName, pressed: bool },
    Axis { name: AxisName, x: u16, y: u16 },
    Trigger { name: TriggerName, value: u8 },
    Accelerometer { name: AccelerometerName, x: u16, y: u16 },
}

} // verus!
