use inputplumber::dbus::{plan_emission, DBusEvent, EmitError, Emission, HysteresisAdapter};
use inputplumber::event::{AxisName, ButtonName};
use inputplumber::fraction::Fraction;
use inputplumber::native::{Action, Capability, Gamepad, InputValue};

fn level(action: Action, hundredths: u32) -> DBusEvent {
    DBusEvent { action, value: InputValue::Float(Fraction { num: hundredths, den: 100 }) }
}

fn stick() -> Capability {
    Capability::Gamepad(Gamepad::Axis(AxisName::LStick))
}

#[test]
fn crossing_up_then_down() {
    let mut adapter = HysteresisAdapter::new();
    assert_eq!(adapter.translate_event(stick(), vec![level(Action::Left, 10)]), vec![]);
    assert_eq!(
        adapter.translate_event(stick(), vec![level(Action::Left, 50)]),
        vec![DBusEvent { action: Action::Left, value: InputValue::Float(Fraction { num: 1, den: 1 }) }]
    );
    assert!(adapter.get_state().pressed_left);
    assert_eq!(adapter.translate_event(stick(), vec![level(Action::Left, 90), level(Action::Left, 60)]), vec![]);
    assert_eq!(
        adapter.translate_event(stick(), vec![level(Action::Left, 20)]),
        vec![DBusEvent { action: Action::Left, value: InputValue::Float(Fraction { num: 0, den: 1 }) }]
    );
    assert!(!adapter.get_state().pressed_left);
}

#[test]
fn exactly_at_threshold_is_silent() {
    let mut adapter = HysteresisAdapter::new();
    assert_eq!(adapter.translate_event(stick(), vec![level(Action::Up, 35)]), vec![]);
    adapter.translate_event(stick(), vec![level(Action::Up, 80)]);
    assert_eq!(adapter.translate_event(stick(), vec![level(Action::Up, 35)]), vec![]);
    assert!(adapter.get_state().pressed_up);
}

#[test]
fn directions_are_independent() {
    let mut adapter = HysteresisAdapter::with_threshold(Fraction { num: 1, den: 2 });
    let out = adapter.translate_event(stick(), vec![level(Action::Right, 60), level(Action::Down, 40), level(Action::Down, 70)]);
    assert_eq!(
        out,
        vec![
            DBusEvent { action: Action::Right, value: InputValue::Float(Fraction { num: 1, den: 1 }) },
            DBusEvent { action: Action::Down, value: InputValue::Float(Fraction { num: 1, den: 1 }) },
        ]
    );
    let s = adapter.get_state();
    assert!(s.pressed_right && s.pressed_down && !s.pressed_left && !s.pressed_up);
}

#[test]
fn non_axis_events_pass_through() {
    let mut adapter = HysteresisAdapter::new();
    let button = Capability::Gamepad(Gamepad::Button(ButtonName::A));
    let events = vec![level(Action::Left, 10), DBusEvent { action: Action::Accept, value: InputValue::Bool(true) }];
    assert_eq!(adapter.translate_event(button, events.clone()), events);
    let other = vec![DBusEvent { action: Action::Accept, value: InputValue::Bool(true) }];
    assert_eq!(adapter.translate_event(stick(), other.clone()), other);
}

#[test]
fn emission_decisions() {
    let none = DBusEvent { action: Action::NoAction, value: InputValue::Bool(true) };
    assert_eq!(plan_emission(&none, false), Ok(None));
    let accept = DBusEvent { action: Action::Accept, value: InputValue::Bool(true) };
    assert_eq!(plan_emission(&accept, false), Err(EmitError::NoPath));
    assert_eq!(
        plan_emission(&accept, true),
        Ok(Some(Emission::Input { action: Action::Accept, value: Fraction { num: 1, den: 1 } }))
    );
    let touch = DBusEvent {
        action: Action::Touch,
        value: InputValue::Touch { index: 2, is_touching: false, pressure: None, x: None, y: Some(Fraction { num: 1, den: 4 }) },
    };
    assert_eq!(
        plan_emission(&touch, true),
        Ok(Some(Emission::Touch {
            action: Action::Touch,
            index: 2,
            is_touching: false,
            pressure: Fraction { num: 1, den: 1 },
            x: Fraction { num: 0, den: 1 },
            y: Fraction { num: 1, den: 4 },
        }))
    );
}
