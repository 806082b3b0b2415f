//! Properties of the driver that relate several reports or several polls.
use vstd::prelude::*;

use crate::driver::{poll_spec, DriverState};
use crate::event::{AxisName, ButtonName, Event};
use crate::report::{classify_spec, PacketKind, ReportFamily};
use crate::xinput::{
    axis_change, button_change, left_accelerometer, right_accelerometer, trigger_change,
    xinput_events, xinput_of, XInputButtons, XInputDataReport,
};

verus! {

/// The state of one button in a report.
pub open spec fn button_value(r: XInputDataReport, name: ButtonName) -> bool {
    let b = r.buttons;
    match name {
        ButtonName::A => b.a,
        ButtonName::X => b.x,
        ButtonName::B => b.b,
        ButtonName::Y => b.y,
        ButtonName::Menu => b.menu,
        ButtonName::View => b.view,
        ButtonName::Legion => b.legion,
        ButtonName::QuickAccess => b.quick_access,
        ButtonName::DPadDown => b.down,
        ButtonName::DPadUp => b.up,
        ButtonName::DPadLeft => b.left,
        ButtonName::DPadRight => b.right,
        ButtonName::LB => b.lb,
        ButtonName::RB => b.rb,
        ButtonName::DTriggerL => b.d_trigger_l,
        ButtonName::DTriggerR => b.d_trigger_r,
        ButtonName::M2 => b.m2,
        ButtonName::M3 => b.m3,
        ButtonName::Y1 => b.y1,
        ButtonName::Y2 => b.y2,
        ButtonName::Y3 => b.y3,
        ButtonName::MouseClick => b.mouse_click,
        ButtonName::ThumbL => b.thumb_l,
        ButtonName::ThumbR => b.thumb_r,
    }
}

/// `r` with one button set to `v` and every other field kept.
pub open spec fn with_button(r: XInputDataReport, name: ButtonName, v: bool) -> XInputDataReport {
    let b = r.buttons;
    let nb = match name {
        ButtonName::A => XInputButtons { a: v, ..b },
        ButtonName::X => XInputButtons { x: v, ..b },
        ButtonName::B => XInputButtons { b: v, ..b },
        ButtonName::Y => XInputButtons { y: v, ..b },
        ButtonName::Menu => XInputButtons { menu: v, ..b },
        ButtonName::View => XInputButtons { view: v, ..b },
        ButtonName::Legion => XInputButtons { legion: v, ..b },
        ButtonName::QuickAccess => XInputButtons { quick_access: v, ..b },
        ButtonName::DPadDown => XInputButtons { down: v, ..b },
        ButtonName::DPadUp => XInputButtons { up: v, ..b },
        ButtonName::DPadLeft => XInputButtons { left: v, ..b },
        ButtonName::DPadRight => XInputButtons { right: v, ..b },
        ButtonName::LB => XInputButtons { lb: v, ..b },
        ButtonName::RB => XInputButtons { rb: v, ..b },
        ButtonName::DTriggerL => XInputButtons { d_trigger_l: v, ..b },
        ButtonName::DTriggerR => XInputButtons { d_trigger_r: v, ..b },
        ButtonName::M2 => XInputButtons { m2: v, ..b },
        ButtonName::M3 => XInputButtons { m3: v, ..b },
        ButtonName::Y1 => XInputButtons { y1: v, ..b },
        ButtonName::Y2 => XInputButtons { y2: v, ..b },
        ButtonName::Y3 => XInputButtons { y3: v, ..b },
        ButtonName::MouseClick => XInputButtons { mouse_click: v, ..b },
        ButtonName::ThumbL => XInputButtons { thumb_l: v, ..b },
        ButtonName::ThumbR => XInputButtons { thumb_r: v, ..b },
    };
    XInputDataReport { buttons: nb, ..r }
}

/// The accelerometer samples of a report, which accompany every report.
pub open spec fn samples(n: XInputDataReport) -> Seq<Event> {
    seq![left_accelerometer(n), right_accelerometer(n)]
}

/// Comparing a gamepad report with itself yields no edge-triggered event:
/// only the two accelerometer samples, which are reported on every report.
pub proof fn lemma_same_report_only_samples(r: XInputDataReport)
    ensures
        xinput_events(r, r) == samples(r),
{
    reveal(button_change);
    reveal(axis_change);
    reveal(trigger_change);
    assert(xinput_events(r, r) =~= samples(r));
}

/// Polling the same packet twice: the second poll leaves the state as the
/// first left it and yields no change event, for every family (for the
/// gamepad only its accelerometer samples; the others yield nothing).
pub proof fn lemma_repeated_packet_is_quiet(s: DriverState, p: Seq<u8>)
    requires
        classify_spec(p) is Family,
    ensures
        poll_spec(poll_spec(s, p).0, p).0 == poll_spec(s, p).0,
        poll_spec(poll_spec(s, p).0, p).1 == Ok::<Seq<Event>, crate::report::PollError>(
            if classify_spec(p) == PacketKind::Family(ReportFamily::XInput) {
                samples(xinput_of(p))
            } else {
                seq![]
            },
        ),
{
    lemma_same_report_only_samples(xinput_of(p));
}

proof fn lemma_single_a(o: XInputDataReport, v: bool)
    requires
        button_value(o, ButtonName::A) != v,
    ensures
        xinput_events(o, with_button(o, ButtonName::A, v)) == seq![Event::Button { name: ButtonName::A, pressed: v }]
            + samples(with_button(o, ButtonName::A, v)),
{
    reveal(button_change);
    reveal(axis_change);
    reveal(trigger_change);
    let n = with_button(o, ButtonName::A, v);
    assert(xinput_events(o, n) =~= seq![Event::Button { name: ButtonName::A, pressed: v }] + samples(n));
}

proof fn lemma_single_x(o: XInputDataReport, v: bool)
    requires
        button_value(o, ButtonName::X) != v,
    ensures
        xinput_events(o, with_button(o, ButtonName::X, v)) == seq![Event::Button { name: ButtonName::X, pressed: v }]
            + samples(with_button(o, ButtonName::X, v)),
{
    reveal(button_change);
    reveal(axis_change);
    reveal(trigger_change);
    let n = with_button(o, ButtonName::X, v);
    assert(xinput_events(o, n) =~= seq![Event::Button { name: ButtonName::X, pressed: v }] + samples(n));
}

proof fn lemma_single_b(o: XInputDataReport, v: bool)
    requires
        button_value(o, ButtonName::B) != v,
    ensures
        xinput_events(o, with_button(o, ButtonName::B, v)) == seq![Event::Button { name: ButtonName::B, pressed: v }]
            + samples(with_button(o, ButtonName::B, v)),
{
    reveal(button_change);
    reveal(axis_change);
    reveal(trigger_change);
    let n = with_button(o, ButtonName::B, v);
    assert(xinput_events(o, n) =~= seq![Event::Button { name: ButtonName::B, pressed: v }] + samples(n));
}

proof fn lemma_single_y(o: XInputDataReport, v: bool)
    requires
        button_value(o, ButtonName::Y) != v,
    ensures
        xinput_events(o, with_button(o, ButtonName::Y, v)) == seq![Event::Button { name: ButtonName::Y, pressed: v }]
            + samples(with_button(o, ButtonName::Y, v)),
{
    reveal(button_change);
    reveal(axis_change);
    reveal(trigger_change);
    let n = with_button(o, ButtonName::Y, v);
    assert(xinput_events(o, n) =~= seq![Event::Button { name: ButtonName::Y, pressed: v }] + samples(n));
}

proof fn lemma_single_menu(o: XInputDataReport, v: bool)
    requires
        button_value(o, ButtonName::Menu) != v,
    ensures
        xinput_events(o, with_button(o, ButtonName::Menu, v)) == seq![Event::Button { name: ButtonName::Menu, pressed: v }]
            + samples(with_button(o, ButtonName::Menu, v)),
{
    reveal(button_change);
    reveal(axis_change);
    reveal(trigger_change);
    let n = with_button(o, ButtonName::Menu, v);
    assert(xinput_events(o, n) =~= seq![Event::Button { name: ButtonName::Menu, pressed: v }] + samples(n));
}

proof fn lemma_single_view(o: XInputDataReport, v: bool)
    requires
        button_value(o, ButtonName::View) != v,
    ensures
        xinput_events(o, with_button(o, ButtonName::View, v)) == seq![Event::Button { name: ButtonName::View, pressed: v }]
            + samples(with_button(o, ButtonName::View, v)),
{
    reveal(button_change);
    reveal(axis_change);
    reveal(trigger_change);
    let n = with_button(o, ButtonName::View, v);
    assert(xinput_events(o, n) =~= seq![Event::Button { name: ButtonName::View, pressed: v }] + samples(n));
}

proof fn lemma_single_legion(o: XInputDataReport, v: bool)
    requires
        button_value(o, ButtonName::Legion) != v,
    ensures
        xinput_events(o, with_button(o, ButtonName::Legion, v)) == seq![Event::Button { name: ButtonName::Legion, pressed: v }]
            + samples(with_button(o, ButtonName::Legion, v)),
{
    reveal(button_change);
    reveal(axis_change);
    reveal(trigger_change);
    let n = with_button(o, ButtonName::Legion, v);
    assert(xinput_events(o, n) =~= seq![Event::Button { name: ButtonName::Legion, pressed: v }] + samples(n));
}

proof fn lemma_single_quick_access(o: XInputDataReport, v: bool)
    requires
        button_value(o, ButtonName::QuickAccess) != v,
    ensures
        xinput_events(o, with_button(o, ButtonName::QuickAccess, v)) == seq![Event::Button { name: ButtonName::QuickAccess, pressed: v }]
            + samples(with_button(o, ButtonName::QuickAccess, v)),
{
    reveal(button_change);
    reveal(axis_change);
    reveal(trigger_change);
    let n = with_button(o, ButtonName::QuickAccess, v);
    assert(xinput_events(o, n) =~= seq![Event::Button { name: ButtonName::QuickAccess, pressed: v }] + samples(n));
}

proof fn lemma_single_dpad_down(o: XInputDataReport, v: bool)
    requires
        button_value(o, ButtonName::DPadDown) != v,
    ensures
        xinput_events(o, with_button(o, ButtonName::DPadDown, v)) == seq![Event::Button { name: ButtonName::DPadDown, pressed: v }]
            + samples(with_button(o, ButtonName::DPadDown, v)),
{
    reveal(button_change);
    reveal(axis_change);
    reveal(trigger_change);
    let n = with_button(o, ButtonName::DPadDown, v);
    assert(xinput_events(o, n) =~= seq![Event::Button { name: ButtonName::DPadDown, pressed: v }] + samples(n));
}

proof fn lemma_single_dpad_up(o: XInputDataReport, v: bool)
    requires
        button_value(o, ButtonName::DPadUp) != v,
    ensures
        xinput_events(o, with_button(o, ButtonName::DPadUp, v)) == seq![Event::Button { name: ButtonName::DPadUp, pressed: v }]
            + samples(with_button(o, ButtonName::DPadUp, v)),
{
    reveal(button_change);
    reveal(axis_change);
    reveal(trigger_change);
    let n = with_button(o, ButtonName::DPadUp, v);
    assert(xinput_events(o, n) =~= seq![Event::Button { name: ButtonName::DPadUp, pressed: v }] + samples(n));
}

proof fn lemma_single_dpad_left(o: XInputDataReport, v: bool)
    requires
        button_value(o, ButtonName::DPadLeft) != v,
    ensures
        xinput_events(o, with_button(o, ButtonName::DPadLeft, v)) == seq![Event::Button { name: ButtonName::DPadLeft, pressed: v }]
            + samples(with_button(o, ButtonName::DPadLeft, v)),
{
    reveal(button_change);
    reveal(axis_change);
    reveal(trigger_change);
    let n = with_button(o, ButtonName::DPadLeft, v);
    assert(xinput_events(o, n) =~= seq![Event::Button { name: ButtonName::DPadLeft, pressed: v }] + samples(n));
}

proof fn lemma_single_dpad_right(o: XInputDataReport, v: bool)
    requires
        button_value(o, ButtonName::DPadRight) != v,
    ensures
        xinput_events(o, with_button(o, ButtonName::DPadRight, v)) == seq![Event::Button { name: ButtonName::DPadRight, pressed: v }]
            + samples(with_button(o, ButtonName::DPadRight, v)),
{
    reveal(button_change);
    reveal(axis_change);
    reveal(trigger_change);
    let n = with_button(o, ButtonName::DPadRight, v);
    assert(xinput_events(o, n) =~= seq![Event::Button { name: ButtonName::DPadRight, pressed: v }] + samples(n));
}

proof fn lemma_single_lb(o: XInputDataReport, v: bool)
    requires
        button_value(o, ButtonName::LB) != v,
    ensures
        xinput_events(o, with_button(o, ButtonName::LB, v)) == seq![Event::Button { name: ButtonName::LB, pressed: v }]
            + samples(with_button(o, ButtonName::LB, v)),
{
    reveal(button_change);
    reveal(axis_change);
    reveal(trigger_change);
    let n = with_button(o, ButtonName::LB, v);
    assert(xinput_events(o, n) =~= seq![Event::Button { name: ButtonName::LB, pressed: v }] + samples(n));
}

proof fn lemma_single_rb(o: XInputDataReport, v: bool)
    requires
        button_value(o, ButtonName::RB) != v,
    ensures
        xinput_events(o, with_button(o, ButtonName::RB, v)) == seq![Event::Button { name: ButtonName::RB, pressed: v }]
            + samples(with_button(o, ButtonName::RB, v)),
{
    reveal(button_change);
    reveal(axis_change);
    reveal(trigger_change);
    let n = with_button(o, ButtonName::RB, v);
    assert(xinput_events(o, n) =~= seq![Event::Button { name: ButtonName::RB, pressed: v }] + samples(n));
}

proof fn lemma_single_d_trigger_l(o: XInputDataReport, v: bool)
    requires
        button_value(o, ButtonName::DTriggerL) != v,
    ensures
        xinput_events(o, with_button(o, ButtonName::DTriggerL, v)) == seq![Event::Button { name: ButtonName::DTriggerL, pressed: v }]
            + samples(with_button(o, ButtonName::DTriggerL, v)),
{
    reveal(button_change);
    reveal(axis_change);
    reveal(trigger_change);
    let n = with_button(o, ButtonName::DTriggerL, v);
    assert(xinput_events(o, n) =~= seq![Event::Button { name: ButtonName::DTriggerL, pressed: v }] + samples(n));
}

proof fn lemma_single_d_trigger_r(o: XInputDataReport, v: bool)
    requires
        button_value(o, ButtonName::DTriggerR) != v,
    ensures
        xinput_events(o, with_button(o, ButtonName::DTriggerR, v)) == seq![Event::Button { name: ButtonName::DTriggerR, pressed: v }]
            + samples(with_button(o, ButtonName::DTriggerR, v)),
{
    reveal(button_change);
    reveal(axis_change);
    reveal(trigger_change);
    let n = with_button(o, ButtonName::DTriggerR, v);
    assert(xinput_events(o, n) =~= seq![Event::Button { name: ButtonName::DTriggerR, pressed: v }] + samples(n));
}

proof fn lemma_single_m2(o: XInputDataReport, v: bool)
    requires
        button_value(o, ButtonName::M2) != v,
    ensures
        xinput_events(o, with_button(o, ButtonName::M2, v)) == seq![Event::Button { name: ButtonName::M2, pressed: v }]
            + samples(with_button(o, ButtonName::M2, v)),
{
    reveal(button_change);
    reveal(axis_change);
    reveal(trigger_change);
    let n = with_button(o, ButtonName::M2, v);
    assert(xinput_events(o, n) =~= seq![Event::Button { name: ButtonName::M2, pressed: v }] + samples(n));
}

proof fn lemma_single_m3(o: XInputDataReport, v: bool)
    requires
        button_value(o, ButtonName::M3) != v,
    ensures
        xinput_events(o, with_button(o, ButtonName::M3, v)) == seq![Event::Button { name: ButtonName::M3, pressed: v }]
            + samples(with_button(o, ButtonName::M3, v)),
{
    reveal(button_change);
    reveal(axis_change);
    reveal(trigger_change);
    let n = with_button(o, ButtonName::M3, v);
    assert(xinput_events(o, n) =~= seq![Event::Button { name: ButtonName::M3, pressed: v }] + samples(n));
}

proof fn lemma_single_y1(o: XInputDataReport, v: bool)
    requires
        button_value(o, ButtonName::Y1) != v,
    ensures
        xinput_events(o, with_button(o, ButtonName::Y1, v)) == seq![Event::Button { name: ButtonName::Y1, pressed: v }]
            + samples(with_button(o, ButtonName::Y1, v)),
{
    reveal(button_change);
    reveal(axis_change);
    reveal(trigger_change);
    let n = with_button(o, ButtonName::Y1, v);
    assert(xinput_events(o, n) =~= seq![Event::Button { name: ButtonName::Y1, pressed: v }] + samples(n));
}

proof fn lemma_single_y2(o: XInputDataReport, v: bool)
    requires
        button_value(o, ButtonName::Y2) != v,
    ensures
        xinput_events(o, with_button(o, ButtonName::Y2, v)) == seq![Event::Button { name: ButtonName::Y2, pressed: v }]
            + samples(with_button(o, ButtonName::Y2, v)),
{
    reveal(button_change);
    reveal(axis_change);
    reveal(trigger_change);
    let n = with_button(o, ButtonName::Y2, v);
    assert(xinput_events(o, n) =~= seq![Event::Button { name: ButtonName::Y2, pressed: v }] + samples(n));
}

proof fn lemma_single_y3(o: XInputDataReport, v: bool)
    requires
        button_value(o, ButtonName::Y3) != v,
    ensures
        xinput_events(o, with_button(o, ButtonName::Y3, v)) == seq![Event::Button { name: ButtonName::Y3, pressed: v }]
            + samples(with_button(o, ButtonName::Y3, v)),
{
    reveal(button_change);
    reveal(axis_change);
    reveal(trigger_change);
    let n = with_button(o, ButtonName::Y3, v);
    assert(xinput_events(o, n) =~= seq![Event::Button { name: ButtonName::Y3, pressed: v }] + samples(n));
}

proof fn lemma_single_mouse_click(o: XInputDataReport, v: bool)
    requires
        button_value(o, ButtonName::MouseClick) != v,
    ensures
        xinput_events(o, with_button(o, ButtonName::MouseClick, v)) == seq![Event::Button { name: ButtonName::MouseClick, pressed: v }]
            + samples(with_button(o, ButtonName::MouseClick, v)),
{
    reveal(button_change);
    reveal(axis_change);
    reveal(trigger_change);
    let n = with_button(o, ButtonName::MouseClick, v);
    assert(xinput_events(o, n) =~= seq![Event::Button { name: ButtonName::MouseClick, pressed: v }] + samples(n));
}

proof fn lemma_single_thumb_l(o: XInputDataReport, v: bool)
    requires
        button_value(o, ButtonName::ThumbL) != v,
    ensures
        xinput_events(o, with_button(o, ButtonName::ThumbL, v)) == seq![Event::Button { name: ButtonName::ThumbL, pressed: v }]
            + samples(with_button(o, ButtonName::ThumbL, v)),
{
    reveal(button_change);
    reveal(axis_change);
    reveal(trigger_change);
    let n = with_button(o, ButtonName::ThumbL, v);
    assert(xinput_events(o, n) =~= seq![Event::Button { name: ButtonName::ThumbL, pressed: v }] + samples(n));
}

proof fn lemma_single_thumb_r(o: XInputDataReport, v: bool)
    requires
        button_value(o, ButtonName::ThumbR) != v,
    ensures
        xinput_events(o, with_button(o, ButtonName::ThumbR, v)) == seq![Event::Button { name: ButtonName::ThumbR, pressed: v }]
            + samples(with_button(o, ButtonName::ThumbR, v)),
{
    reveal(button_change);
    reveal(axis_change);
    reveal(trigger_change);
    let n = with_button(o, ButtonName::ThumbR, v);
    assert(xinput_events(o, n) =~= seq![Event::Button { name: ButtonName::ThumbR, pressed: v }] + samples(n));
}

/// Changing exactly one button between two otherwise identical gamepad
/// reports yields exactly one button event carrying the new state, besides
/// the accelerometer samples.
pub proof fn lemma_single_button_change(o: XInputDataReport, name: ButtonName, v: bool)
    requires
        button_value(o, name) != v,
    ensures
        xinput_events(o, with_button(o, name, v)) == seq![Event::Button { name, pressed: v }]
            + samples(with_button(o, name, v)),
{
    match name {
        ButtonName::A => lemma_single_a(o, v),
        ButtonName::X => lemma_single_x(o, v),
        ButtonName::B => lemma_single_b(o, v),
        ButtonName::Y => lemma_single_y(o, v),
        ButtonName::Menu => lemma_single_menu(o, v),
        ButtonName::View => lemma_single_view(o, v),
        ButtonName::Legion => lemma_single_legion(o, v),
        ButtonName::QuickAccess => lemma_single_quick_access(o, v),
        ButtonName::DPadDown => lemma_single_dpad_down(o, v),
        ButtonName::DPadUp => lemma_single_dpad_up(o, v),
        ButtonName::DPadLeft => lemma_single_dpad_left(o, v),
        ButtonName::DPadRight => lemma_single_dpad_right(o, v),
        ButtonName::LB => lemma_single_lb(o, v),
        ButtonName::RB => lemma_single_rb(o, v),
        ButtonName::DTriggerL => lemma_single_d_trigger_l(o, v),
        ButtonName::DTriggerR => lemma_single_d_trigger_r(o, v),
        ButtonName::M2 => lemma_single_m2(o, v),
        ButtonName::M3 => lemma_single_m3(o, v),
        ButtonName::Y1 => lemma_single_y1(o, v),
        ButtonName::Y2 => lemma_single_y2(o, v),
        ButtonName::Y3 => lemma_single_y3(o, v),
        ButtonName::MouseClick => lemma_single_mouse_click(o, v),
        ButtonName::ThumbL => lemma_single_thumb_l(o, v),
        ButtonName::ThumbR => lemma_single_thumb_r(o, v),
    }
}

/// Changing only the Y component of a stick yields one axis event with both
/// of the stick's new components, besides the accelerometer samples.
pub proof fn lemma_stick_y_change(o: XInputDataReport, right_stick: bool, v: u8)
    requires
        v != (if right_stick {
            o.r_stick_y
        } else {
            o.l_stick_y
        }),
    ensures
        ({
            let n = if right_stick {
                XInputDataReport { r_stick_y: v, ..o }
            } else {
                XInputDataReport { l_stick_y: v, ..o }
            };
            let axis = if right_stick {
                Event::Axis { name: AxisName::RStick, x: n.r_stick_x as u16, y: v as u16 }
            } else {
                Event::Axis { name: AxisName::LStick, x: n.l_stick_x as u16, y: v as u16 }
            };
            xinput_events(o, n) == seq![axis] + samples(n)
        }),
{
    reveal(button_change);
    reveal(axis_change);
    reveal(trigger_change);
    let n = if right_stick {
        XInputDataReport { r_stick_y: v, ..o }
    } else {
        XInputDataReport { l_stick_y: v, ..o }
    };
    let axis = if right_stick {
        Event::Axis { name: AxisName::RStick, x: n.r_stick_x as u16, y: v as u16 }
    } else {
        Event::Axis { name: AxisName::LStick, x: n.l_stick_x as u16, y: v as u16 }
    };
    assert(xinput_events(o, n) =~= seq![axis] + samples(n));
}

/// A malformed packet yields an error and leaves the state untouched, so any
/// later poll behaves as if it had never been received.
pub proof fn lemma_malformed_packet_isolated(s: DriverState, bad: Seq<u8>, next: Seq<u8>)
    requires
        classify_spec(bad) is Malformed,
    ensures
        poll_spec(s, bad).0 == s,
        poll_spec(s, bad).1 is Err,
        poll_spec(poll_spec(s, bad).0, next) == poll_spec(s, next),
{
}

} // verus!
