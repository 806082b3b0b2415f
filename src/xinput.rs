//! The gamepad ("XInput") report: its field layout and the change events
//! between two consecutive reports.
use vstd::prelude::*;

use crate::event::{AccelerometerName, AxisName, ButtonName, Event, TriggerName};

verus! {

/// The digital inputs of a gamepad report.
#[derive(Clone, Copy, Debug, PartialEq, Eq, Structural)]
pub struct XInputButtons {
    pub a: bool,
    pub x: bool,
    pub b: bool,
    pub y: bool,
    pub menu: bool,
    pub view: bool,
    pub legion: bool,
    pub quick_access: bool,
    pub down: bool,
    pub up: bool,
    pub left: bool,
    pub right: bool,
    pub lb: bool,
    pub rb: bool,
    pub d_trigger_l: bool,
    pub d_trigger_r: bool,
    pub m2: bool,
    pub m3: bool,
    pub y1: bool,
    pub y2: bool,
    pub y3: bool,
    pub mouse_click: bool,
    pub thumb_l: bool,
    pub thumb_r: bool,
}

/// The decoded gamepad report.
///
/// Layout of the 60-byte packet (bit masks count from the most significant
/// bit of each byte):
/// - bytes 12..=15: left stick X, Y; right stick X, Y
/// - byte 18: thumb L `0x80`, thumb R `0x40`, d-pad up `0x20`, down `0x10`,
///   left `0x08`, right `0x04`
/// - byte 19: A `0x80`, B `0x40`, X `0x20`, Y `0x10`, LB `0x08`,
///   digital trigger L `0x04`, RB `0x02`, digital trigger R `0x01`
/// - byte 20: Legion `0x80`, quick access `0x40`, view `0x20`, menu `0x10`
/// - byte 21: Y1 `0x80`, Y2 `0x40`, Y3 `0x20`, M2 `0x08`, M3 `0x04`,
///   mouse click `0x01`
/// - bytes 22, 23: analog triggers L, R
/// - bytes 24..=25, 26..=27: touch X, Y, little endian
/// - bytes 28, 29: left accelerometer; bytes 30, 31: right accelerometer
/// - byte 32: mouse wheel
#[derive(Clone, Copy, Debug, PartialEq, Eq, Structural)]
pub struct XInputDataReport {
    pub buttons: XInputButtons,
    pub l_stick_x: u8,
    pub l_stick_y: u8,
    pub r_stick_x: u8,
    pub r_stick_y: u8,
    pub a_trigger_l: u8,
    pub a_trigger_r: u8,
    pub left_accel_0: u8,
    pub left_accel_1: u8,
    pub right_accel_0: u8,
    pub right_accel_1: u8,
    pub mouse_z: u8,
    pub touch_x: u16,
    pub touch_y: u16,
}

/// Whether any bit of `mask` is set in `b`.
#[verifier::opaque]
pub open spec fn flag(b: u8, mask: u8) -> bool {
    b & mask != 0
}

/// The 16-bit value of two little-endian bytes.
#[verifier::opaque]
pub open spec fn le_u16(lo: u8, hi: u8) -> u16 {
    (lo as int + 256 * (hi as int)) as u16
}

/// The buttons that a gamepad packet holds.
pub open spec fn buttons_of(p: Seq<u8>) -> XInputButtons
    recommends
        p.len() == 60,
{
    XInputButtons {
        a: flag(p[19], 0x80),
        x: flag(p[19], 0x20),
        b: flag(p[19], 0x40),
        y: flag(p[19], 0x10),
        menu: flag(p[20], 0x10),
        view: flag(p[20], 0x20),
        legion: flag(p[20], 0x80),
        quick_access: flag(p[20], 0x40),
        down: flag(p[18], 0x10),
        up: flag(p[18], 0x20),
        left: flag(p[18], 0x08),
        right: flag(p[18], 0x04),
        lb: flag(p[19], 0x08),
        rb: flag(p[19], 0x02),
        d_trigger_l: flag(p[19], 0x04),
        d_trigger_r: flag(p[19], 0x01),
        m2: flag(p[21], 0x08),
        m3: flag(p[21], 0x04),
        y1: flag(p[21], 0x80),
        y2: flag(p[21], 0x40),
        y3: flag(p[21], 0x20),
        mouse_click: flag(p[21], 0x01),
        thumb_l: flag(p[18], 0x80),
        thumb_r: flag(p[18], 0x40),
    }
}

/// The gamepad report that a packet of the gamepad family holds.
pub open spec fn xinput_of(p: Seq<u8>) -> XInputDataReport
    recommends
        p.len() == 60,
{
    XInputDataReport {
        buttons: buttons_of(p),
        l_stick_x: p[12],
        l_stick_y: p[13],
        r_stick_x: p[14],
        r_stick_y: p[15],
        a_trigger_l: p[22],
        a_trigger_r: p[23],
        left_accel_0: p[28],
        left_accel_1: p[29],
        right_accel_0: p[30],
        right_accel_1: p[31],
        mouse_z: p[32],
        touch_x: le_u16(p[24], p[25]),
        touch_y: le_u16(p[26], p[27]),
    }
}

fn flag_set(b: u8, mask: u8) -> (r: bool)
    ensures
        r == flag(b, mask),
{
    reveal(flag);
    b & mask != 0
}

fn read_le_u16(lo: u8, hi: u8) -> (r: u16)
    ensures
        r == le_u16(lo, hi),
{
    reveal(le_u16);
    lo as u16 + (hi as u16) * 256
}

impl XInputButtons {
    /// Unpacks the button bytes of a gamepad packet.
    pub fn unpack(p: &[u8]) -> (r: XInputButtons)
        requires
            p@.len() == 60,
        ensures
            r == buttons_of(p@),
    {
        let b18: u8 = p[18];
        let b19: u8 = p[19];
        let b20: u8 = p[20];
        let b21: u8 = p[21];
        XInputButtons {
            a: flag_set(b19, 0x80),
            x: flag_set(b19, 0x20),
            b: flag_set(b19, 0x40),
            y: flag_set(b19, 0x10),
            menu: flag_set(b20, 0x10),
            view: flag_set(b20, 0x20),
            legion: flag_set(b20, 0x80),
            quick_access: flag_set(b20, 0x40),
            down: flag_set(b18, 0x10),
            up: flag_set(b18, 0x20),
            left: flag_set(b18, 0x08),
            right: flag_set(b18, 0x04),
            lb: flag_set(b19, 0x08),
            rb: flag_set(b19, 0x02),
            d_trigger_l: flag_set(b19, 0x04),
            d_trigger_r: flag_set(b19, 0x01),
            m2: flag_set(b21, 0x08),
            m3: flag_set(b21, 0x04),
            y1: flag_set(b21, 0x80),
            y2: flag_set(b21, 0x40),
            y3: flag_set(b21, 0x20),
            mouse_click: flag_set(b21, 0x01),
            thumb_l: flag_set(b18, 0x80),
            thumb_r: flag_set(b18, 0x40),
        }
    }
}

impl XInputDataReport {
    /// Unpacks a gamepad packet of exactly the family's size.
    pub fn unpack(p: &[u8]) -> (r: XInputDataReport)
        requires
            p@.len() == 60,
        ensures
            r == xinput_of(p@),
    {
        XInputDataReport {
            buttons: XInputButtons::unpack(p),
            l_stick_x: p[12],
            l_stick_y: p[13],
            r_stick_x: p[14],
            r_stick_y: p[15],
            a_trigger_l: p[22],
            a_trigger_r: p[23],
            left_accel_0: p[28],
            left_accel_1: p[29],
            right_accel_0: p[30],
            right_accel_1: p[31],
            mouse_z: p[32],
            touch_x: read_le_u16(p[24], p[25]),
            touch_y: read_le_u16(p[26], p[27]),
        }
    }
}

/// A button event if the button changed, carrying its new state.
#[verifier::opaque]
pub open spec fn button_change(name: ButtonName, old: bool, new: bool) -> Seq<Event> {
    if old != new {
        seq![Event::Button { name, pressed: new }]
    } else {
        seq![]
    }
}

/// One axis event with both new components if either component changed.
#[verifier::opaque]
pub open spec fn axis_change(name: AxisName, ox: u16, oy: u16, nx: u16, ny: u16) -> Seq<Event> {
    if ox != nx || oy != ny {
        seq![Event::Axis { name, x: nx, y: ny }]
    } else {
        seq![]
    }
}

/// A trigger event if the value changed, carrying the new value.
#[verifier::opaque]
pub open spec fn trigger_change(name: TriggerName, old: u8, new: u8) -> Seq<Event> {
    if old != new {
        seq![Event::Trigger { name, value: new }]
    } else {
        seq![]
    }
}

/// The accelerometer sample of the left controller.
pub open spec fn left_accelerometer(n: XInputDataReport) -> Event {
    Event::Accelerometer {
        name: AccelerometerName::LeftAccelerometer,
        x: n.left_accel_0 as u16,
        y: n.left_accel_1 as u16,
    }
}

/// The accelerometer sample of the right controller.
pub open spec fn right_accelerometer(n: XInputDataReport) -> Event {
    Event::Accelerometer {
        name: AccelerometerName::RightAccelerometer,
        x: n.right_accel_0 as u16,
        y: n.right_accel_1 as u16,
    }
}

/// `acc` followed by the changes of the face buttons and menu/view.
pub open spec fn face_buttons(acc: Seq<Event>, o: XInputDataReport, n: XInputDataReport) -> Seq<Event> {
    acc
        + button_change(ButtonName::A, o.buttons.a, n.buttons.a)
        + button_change(ButtonName::X, o.buttons.x, n.buttons.x)
        + button_change(ButtonName::B, o.buttons.b, n.buttons.b)
        + button_change(ButtonName::Y, o.buttons.y, n.buttons.y)
        + button_change(ButtonName::Menu, o.buttons.menu, n.buttons.menu)
        + button_change(ButtonName::View, o.buttons.view, n.buttons.view)
}

/// `acc` followed by the changes of the system buttons and d-pad.
pub open spec fn system_dpad_buttons(acc: Seq<Event>, o: XInputDataReport, n: XInputDataReport) -> Seq<Event> {
    acc
        + button_change(ButtonName::Legion, o.buttons.legion, n.buttons.legion)
        + button_change(ButtonName::QuickAccess, o.buttons.quick_access, n.buttons.quick_access)
        + button_change(ButtonName::DPadDown, o.buttons.down, n.buttons.down)
        + button_change(ButtonName::DPadUp, o.buttons.up, n.buttons.up)
        + button_change(ButtonName::DPadLeft, o.buttons.left, n.buttons.left)
        + button_change(ButtonName::DPadRight, o.buttons.right, n.buttons.right)
}

/// `acc` followed by the changes of the shoulder, digital trigger and M buttons.
pub open spec fn shoulder_buttons(acc: Seq<Event>, o: XInputDataReport, n: XInputDataReport) -> Seq<Event> {
    acc
        + button_change(ButtonName::LB, o.buttons.lb, n.buttons.lb)
        + button_change(ButtonName::RB, o.buttons.rb, n.buttons.rb)
        + button_change(ButtonName::DTriggerL, o.buttons.d_trigger_l, n.buttons.d_trigger_l)
        + button_change(ButtonName::DTriggerR, o.buttons.d_trigger_r, n.buttons.d_trigger_r)
        + button_change(ButtonName::M2, o.buttons.m2, n.buttons.m2)
        + button_change(ButtonName::M3, o.buttons.m3, n.buttons.m3)
}

/// `acc` followed by the changes of the Y buttons, mouse click and thumbsticks.
pub open spec fn extra_buttons(acc: Seq<Event>, o: XInputDataReport, n: XInputDataReport) -> Seq<Event> {
    acc
        + button_change(ButtonName::Y1, o.buttons.y1, n.buttons.y1)
        + button_change(ButtonName::Y2, o.buttons.y2, n.buttons.y2)
        + button_change(ButtonName::Y3, o.buttons.y3, n.buttons.y3)
        + button_change(ButtonName::MouseClick, o.buttons.mouse_click, n.buttons.mouse_click)
        + button_change(ButtonName::ThumbL, o.buttons.thumb_l, n.buttons.thumb_l)
        + button_change(ButtonName::ThumbR, o.buttons.thumb_r, n.buttons.thumb_r)
}

/// `acc` followed by the changes of the touchpad, left stick and right stick pairs.
pub open spec fn axis_events(acc: Seq<Event>, o: XInputDataReport, n: XInputDataReport) -> Seq<Event> {
    acc
        + axis_change(AxisName::Touchpad, o.touch_x, o.touch_y, n.touch_x, n.touch_y)
        + axis_change(
            AxisName::LStick,
            o.l_stick_x as u16,
            o.l_stick_y as u16,
            n.l_stick_x as u16,
            n.l_stick_y as u16,
        )
        + axis_change(
            AxisName::RStick,
            o.r_stick_x as u16,
            o.r_stick_y as u16,
            n.r_stick_x as u16,
            n.r_stick_y as u16,
        )
}

/// `acc` followed by the changes of the analog triggers and wheel.
pub open spec fn trigger_events(acc: Seq<Event>, o: XInputDataReport, n: XInputDataReport) -> Seq<Event> {
    acc
        + trigger_change(TriggerName::ATriggerL, o.a_trigger_l, n.a_trigger_l)
        + trigger_change(TriggerName::ATriggerR, o.a_trigger_r, n.a_trigger_r)
        + trigger_change(TriggerName::MouseWheel, o.mouse_z, n.mouse_z)
}

/// All events between two consecutive gamepad reports: one per changed
/// button in declaration order, one per axis pair with a changed component
/// (touchpad, left stick, right stick), one per changed analog value (left
/// and right trigger, wheel), then both accelerometer samples, which are
/// emitted on every report.
pub open spec fn xinput_events(o: XInputDataReport, n: XInputDataReport) -> Seq<Event> {
    let buttons = extra_buttons(
        shoulder_buttons(system_dpad_buttons(face_buttons(seq![], o, n), o, n), o, n),
        o,
        n,
    );
    trigger_events(axis_events(buttons, o, n), o, n).push(left_accelerometer(n)).push(
        right_accelerometer(n),
    )
}

fn push_button_change(events: &mut Vec<Event>, name: ButtonName, prev: bool, cur: bool)
    ensures
        final(events)@ == old(events)@ + button_change(name, prev, cur),
{
    reveal(button_change);
    if prev != cur {
        events.push(Event::Button { name, pressed: cur });
    }
    assert(events@ =~= old(events)@ + button_change(name, prev, cur));
}

fn push_axis_change(events: &mut Vec<Event>, name: AxisName, ox: u16, oy: u16, nx: u16, ny: u16)
    ensures
        final(events)@ == old(events)@ + axis_change(name, ox, oy, nx, ny),
{
    reveal(axis_change);
    if ox != nx || oy != ny {
        events.push(Event::Axis { name, x: nx, y: ny });
    }
    assert(events@ =~= old(events)@ + axis_change(name, ox, oy, nx, ny));
}

fn push_trigger_change(events: &mut Vec<Event>, name: TriggerName, prev: u8, cur: u8)
    ensures
        final(events)@ == old(events)@ + trigger_change(name, prev, cur),
{
    reveal(trigger_change);
    if prev != cur {
        events.push(Event::Trigger { name, value: cur });
    }
    assert(events@ =~= old(events)@ + trigger_change(name, prev, cur));
}

fn push_face_buttons(events: &mut Vec<Event>, prev: &XInputDataReport, cur: &XInputDataReport)
    ensures
        final(events)@ == face_buttons(old(events)@, *prev, *cur),
{
    push_button_change(events, ButtonName::A, prev.buttons.a, cur.buttons.a);
    push_button_change(events, ButtonName::X, prev.buttons.x, cur.buttons.x);
    push_button_change(events, ButtonName::B, prev.buttons.b, cur.buttons.b);
    push_button_change(events, ButtonName::Y, prev.buttons.y, cur.buttons.y);
    push_button_change(events, ButtonName::Menu, prev.buttons.menu, cur.buttons.menu);
    push_button_change(events, ButtonName::View, prev.buttons.view, cur.buttons.view);
}

fn push_system_dpad_buttons(events: &mut Vec<Event>, prev: &XInputDataReport, cur: &XInputDataReport)
    ensures
        final(events)@ == system_dpad_buttons(old(events)@, *prev, *cur),
{
    push_button_change(events, ButtonName::Legion, prev.buttons.legion, cur.buttons.legion);
    push_button_change(events, ButtonName::QuickAccess, prev.buttons.quick_access, cur.buttons.quick_access);
    push_button_change(events, ButtonName::DPadDown, prev.buttons.down, cur.buttons.down);
    push_button_change(events, ButtonName::DPadUp, prev.buttons.up, cur.buttons.up);
    push_button_change(events, ButtonName::DPadLeft, prev.buttons.left, cur.buttons.left);
    push_button_change(events, ButtonName::DPadRight, prev.buttons.right, cur.buttons.right);
}

fn push_shoulder_buttons(events: &mut Vec<Event>, prev: &XInputDataReport, cur: &XInputDataReport)
    ensures
        final(events)@ == shoulder_buttons(old(events)@, *prev, *cur),
{
    push_button_change(events, ButtonName::LB, prev.buttons.lb, cur.buttons.lb);
    push_button_change(events, ButtonName::RB, prev.buttons.rb, cur.buttons.rb);
    push_button_change(events, ButtonName::DTriggerL, prev.buttons.d_trigger_l, cur.buttons.d_trigger_l);
    push_button_change(events, ButtonName::DTriggerR, prev.buttons.d_trigger_r, cur.buttons.d_trigger_r);
    push_button_change(events, ButtonName::M2, prev.buttons.m2, cur.buttons.m2);
    push_button_change(events, ButtonName::M3, prev.buttons.m3, cur.buttons.m3);
}

fn push_extra_buttons(events: &mut Vec<Event>, prev: &XInputDataReport, cur: &XInputDataReport)
    ensures
        final(events)@ == extra_buttons(old(events)@, *prev, *cur),
{
    push_button_change(events, ButtonName::Y1, prev.buttons.y1, cur.buttons.y1);
    push_button_change(events, ButtonName::Y2, prev.buttons.y2, cur.buttons.y2);
    push_button_change(events, ButtonName::Y3, prev.buttons.y3, cur.buttons.y3);
    push_button_change(events, ButtonName::MouseClick, prev.buttons.mouse_click, cur.buttons.mouse_click);
    push_button_change(events, ButtonName::ThumbL, prev.buttons.thumb_l, cur.buttons.thumb_l);
    push_button_change(events, ButtonName::ThumbR, prev.buttons.thumb_r, cur.buttons.thumb_r);
}

fn push_axis_events(events: &mut Vec<Event>, prev: &XInputDataReport, cur: &XInputDataReport)
    ensures
        final(events)@ == axis_events(old(events)@, *prev, *cur),
{
    push_axis_change(events, AxisName::Touchpad, prev.touch_x, prev.touch_y, cur.touch_x, cur.touch_y);
    push_axis_change(events, AxisName::LStick, prev.l_stick_x as u16, prev.l_stick_y as u16, cur.l_stick_x as u16, cur.l_stick_y as u16);
    push_axis_change(events, AxisName::RStick, prev.r_stick_x as u16, prev.r_stick_y as u16, cur.r_stick_x as u16, cur.r_stick_y as u16);
}

fn push_trigger_events(events: &mut Vec<Event>, prev: &XInputDataReport, cur: &XInputDataReport)
    ensures
        final(events)@ == trigger_events(old(events)@, *prev, *cur),
{
    push_trigger_change(events, TriggerName::ATriggerL, prev.a_trigger_l, cur.a_trigger_l);
    push_trigger_change(events, TriggerName::ATriggerR, prev.a_trigger_r, cur.a_trigger_r);
    push_trigger_change(events, TriggerName::MouseWheel, prev.mouse_z, cur.mouse_z);
}

/// The events between two consecutive gamepad reports, as `xinput_events`
/// states them.
pub fn xinput_diff(prev: &XInputDataReport, cur: &XInputDataReport) -> (r: Vec<Event>)
    ensures
        r@ == xinput_events(*prev, *cur),
{
    let mut events: Vec<Event> = Vec::new();
    push_face_buttons(&mut events, prev, cur);
    push_system_dpad_buttons(&mut events, prev, cur);
    push_shoulder_buttons(&mut events, prev, cur);
    push_extra_buttons(&mut events, prev, cur);
    push_axis_events(&mut events, prev, cur);
    push_trigger_events(&mut events, prev, cur);
    events.push(
        Event::Accelerometer {
            name: AccelerometerName::LeftAccelerometer,
            x: cur.left_accel_0 as u16,
            y: cur.left_accel_1 as u16,
        },
    );
    events.push(
        Event::Accelerometer {
            name: AccelerometerName::RightAccelerometer,
            x: cur.right_accel_0 as u16,
            y: cur.right_accel_1 as u16,
        },
    );
    events
}

} // verus!
