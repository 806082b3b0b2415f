//! The signal-bus target: threshold-crossing adaptation of analog direction
//! values into press/release signals, and the decision of what to emit.
use vstd::prelude::*;

use crate::fraction::Fraction;
use crate::native::{Action, Capability, Gamepad, InputValue};

verus! {

/// Default crossing point of analog direction values: `35 / 100`.
pub const AXIS_THRESHOLD_NUM: u32 = 35;
pub const AXIS_THRESHOLD_DEN: u32 = 100;

/// An event for the signal bus.
#[derive(Clone, Copy, Debug, PartialEq, Eq, Structural)]
pub struct DBusEvent {
    pub action: Action,
    pub value: InputValue,
}

/// Whether each analog-derived direction is currently held.
#[derive(Clone, Copy, Debug, PartialEq, Eq, Structural)]
pub struct State {
    pub pressed_left: bool,
    pub pressed_right: bool,
    pub pressed_up: bool,
    pub pressed_down: bool,
}

/// Every direction released.
pub open spec fn released_state() -> State {
    State { pressed_left: false, pressed_right: false, pressed_up: false, pressed_down: false }
}

/// The analog magnitude of a value: a boolean reads as zero or one, a touch
/// as zero.
pub open spec fn magnitude(v: InputValue) -> Fraction {
    match v {
        InputValue::Bool(b) => if b {
            Fraction { num: 1, den: 1 }
        } else {
            Fraction { num: 0, den: 1 }
        },
        InputValue::Float(f) => f,
        InputValue::Touch { .. } => Fraction { num: 0, den: 1 },
    }
}

/// The actions that an analog axis is split into.
pub open spec fn is_direction(a: Action) -> bool {
    a == Action::Left || a == Action::Right || a == Action::Up || a == Action::Down
}

/// The pressed flag of a direction.
pub open spec fn pressed_of(s: State, a: Action) -> bool {
    match a {
        Action::Left => s.pressed_left,
        Action::Right => s.pressed_right,
        Action::Up => s.pressed_up,
        _ => s.pressed_down,
    }
}

/// `s` with the pressed flag of one direction set to `p`.
pub open spec fn with_pressed(s: State, a: Action, p: bool) -> State {
    match a {
        Action::Left => State { pressed_left: p, ..s },
        Action::Right => State { pressed_right: p, ..s },
        Action::Up => State { pressed_up: p, ..s },
        _ => State { pressed_down: p, ..s },
    }
}

/// One direction's transition on magnitude `m`: `Some(new state)` when the
/// threshold is crossed (rising strictly above it while released, falling
/// strictly below it while pressed), `None` otherwise.
pub open spec fn crossing(pressed: bool, m: Fraction, t: Fraction) -> Option<bool> {
    if pressed && m.lt(t) {
        Some(false)
    } else if !pressed && t.lt(m) {
        Some(true)
    } else {
        None
    }
}

/// Adapts one event. Events that are not analog-derived directions pass
/// unchanged; a direction emits a full press (`1`) or release (`0`) only
/// when it crosses the threshold, and nothing otherwise.
pub open spec fn adapt_one(s: State, t: Fraction, is_axis: bool, e: DBusEvent) -> (State, Seq<DBusEvent>) {
    if !is_axis || !is_direction(e.action) {
        (s, seq![e])
    } else {
        match crossing(pressed_of(s, e.action), magnitude(e.value), t) {
            Some(p) => (
                with_pressed(s, e.action, p),
                seq![DBusEvent {
                    action: e.action,
                    value: InputValue::Float(if p {
                        Fraction { num: 1, den: 1 }
                    } else {
                        Fraction { num: 0, den: 1 }
                    }),
                }],
            ),
            None => (s, seq![]),
        }
    }
}

/// Adapts a sequence of events in order, threading the state through.
pub open spec fn adapt_all(s: State, t: Fraction, is_axis: bool, es: Seq<DBusEvent>) -> (State, Seq<DBusEvent>)
    decreases es.len(),
{
    if es.len() == 0 {
        (s, seq![])
    } else {
        let (s1, out1) = adapt_all(s, t, is_axis, es.drop_last());
        let (s2, out2) = adapt_one(s1, t, is_axis, es.last());
        (s2, out1 + out2)
    }
}

/// A direction is held after a sample exactly when the sample rose strictly
/// above the threshold, released when it fell strictly below it, and keeps
/// its previous state on a sample at the threshold; the other directions
/// are untouched, and one event is emitted exactly when the state changed.
pub proof fn lemma_direction_follows_crossings(s: State, t: Fraction, e: DBusEvent)
    requires
        is_direction(e.action),
    ensures
        ({
            let (s2, out) = adapt_one(s, t, true, e);
            let m = magnitude(e.value);
            &&& pressed_of(s2, e.action) == (if t.lt(m) {
                true
            } else if m.lt(t) {
                false
            } else {
                pressed_of(s, e.action)
            })
            &&& s2 == with_pressed(s, e.action, pressed_of(s2, e.action))
            &&& out.len() == (if pressed_of(s2, e.action) != pressed_of(s, e.action) {
                1int
            } else {
                0int
            })
        }),
{
    let m = magnitude(e.value);
    if t.lt(m) {
        assert(!m.lt(t)) by (nonlinear_arith)
            requires
                (t.num as int) * (m.den as int) < (m.num as int) * (t.den as int),
        ;
    }
}

/// Whether events of this capability come from a gamepad axis.
pub open spec fn is_axis_capability(c: Capability) -> bool {
    c matches Capability::Gamepad(Gamepad::Axis(_))
}

/// Turns analog direction values into press and release events with a
/// single crossing threshold.
pub struct HysteresisAdapter {
    state: State,
    threshold: Fraction,
}

impl HysteresisAdapter {
    /// The pressed flags.
    pub closed spec fn state(&self) -> State {
        self.state
    }

    /// The crossing threshold.
    pub closed spec fn threshold(&self) -> Fraction {
        self.threshold
    }

    /// An adapter with every direction released and the default threshold.
    pub fn new() -> (r: HysteresisAdapter)
        ensures
            r.state() == released_state(),
            r.threshold() == (Fraction { num: AXIS_THRESHOLD_NUM, den: AXIS_THRESHOLD_DEN }),
    {
        HysteresisAdapter {
            state: State {
                pressed_left: false,
                pressed_right: false,
                pressed_up: false,
                pressed_down: false,
            },
            threshold: Fraction { num: AXIS_THRESHOLD_NUM, den: AXIS_THRESHOLD_DEN },
        }
    }

    /// An adapter with every direction released and the given threshold.
    pub fn with_threshold(threshold: Fraction) -> (r: HysteresisAdapter)
        ensures
            r.state() == released_state(),
            r.threshold() == threshold,
    {
        HysteresisAdapter {
            state: State {
                pressed_left: false,
                pressed_right: false,
                pressed_up: false,
                pressed_down: false,
            },
            threshold,
        }
    }

    /// The current pressed flags.
    pub fn get_state(&self) -> (r: State)
        ensures
            r == self.state(),
    {
        self.state
    }

    fn adapt(&mut self, is_axis: bool, event: DBusEvent, translated: &mut Vec<DBusEvent>)
        ensures
            final(self).threshold == old(self).threshold,
            (final(self).state, final(translated)@) == ({
                let (s, out) = adapt_one(old(self).state, old(self).threshold, is_axis, event);
                (s, old(translated)@ + out)
            }),
    {
        let ghost start = translated@;
        let mut event = event;
        let pressed = match event.action {
            Action::Left => self.state.pressed_left,
            Action::Right => self.state.pressed_right,
            Action::Up => self.state.pressed_up,
            Action::Down => self.state.pressed_down,
            _ => {
                translated.push(event);
                assert(translated@ =~= start + seq![event]);
                return;
            },
        };
        if !is_axis {
            translated.push(event);
            assert(translated@ =~= start + seq![event]);
            return;
        }
        let m = match event.value {
            InputValue::Bool(b) => if b {
                Fraction::one()
            } else {
                Fraction::zero()
            },
            InputValue::Float(f) => f,
            InputValue::Touch { .. } => Fraction::zero(),
        };
        let new_pressed = if pressed && m.is_less_than(&self.threshold) {
            event.value = InputValue::Float(Fraction::zero());
            false
        } else if !pressed && self.threshold.is_less_than(&m) {
            event.value = InputValue::Float(Fraction::one());
            true
        } else {
            assert(translated@ =~= start + seq![]);
            return;
        };
        match event.action {
            Action::Left => self.state.pressed_left = new_pressed,
            Action::Right => self.state.pressed_right = new_pressed,
            Action::Up => self.state.pressed_up = new_pressed,
            _ => self.state.pressed_down = new_pressed,
        }
        translated.push(event);
        assert(translated@ =~= start + seq![event]);
    }

    /// Adapts the bus events derived from one native event of capability
    /// `source_cap`. Only events derived from a gamepad axis go through the
    /// threshold state machine; all others pass unchanged.
    pub fn translate_event(&mut self, source_cap: Capability, events: Vec<DBusEvent>) -> (r: Vec<
        DBusEvent,
    >)
        ensures
            final(self).threshold() == old(self).threshold(),
            (final(self).state(), r@) == adapt_all(
                old(self).state(),
                old(self).threshold(),
                is_axis_capability(source_cap),
                events@,
            ),
    {
        let is_axis_event = match source_cap {
            Capability::Gamepad(Gamepad::Axis(_)) => true,
            _ => false,
        };
        let mut translated: Vec<DBusEvent> = Vec::new();
        let mut i: usize = 0;
        while i < events.len()
            invariant
                0 <= i <= events@.len(),
                is_axis_event == is_axis_capability(source_cap),
                self.threshold == old(self).threshold,
                (self.state, translated@) == adapt_all(
                    old(self).state,
                    old(self).threshold,
                    is_axis_event,
                    events@.take(i as int),
                ),
            decreases events@.len() - i,
        {
            proof {
                assert(events@.take(i as int + 1).drop_last() =~= events@.take(i as int));
            }
            self.adapt(is_axis_event, events[i], &mut translated);
            i = i + 1;
        }
        assert(events@.take(events@.len() as int) =~= events@);
        translated
    }
}

/// What to send for one event.
#[derive(Clone, Copy, Debug, PartialEq, Eq, Structural)]
pub enum Emission {
    /// A plain input signal with its analog value.
    Input { action: Action, value: Fraction },
    /// A touch signal; absent parts read as full pressure and position zero.
    Touch {
        action: Action,
        index: u32,
        is_touching: bool,
        pressure: Fraction,
        x: Fraction,
        y: Fraction,
    },
}

/// Why an event could not be emitted.
#[derive(Clone, Copy, Debug, PartialEq, Eq, Structural)]
pub enum EmitError {
    /// No bus path has been registered to emit on.
    NoPath,
}

/// The value held, or `d` when absent.
pub open spec fn or_value(o: Option<Fraction>, d: Fraction) -> Fraction {
    match o {
        Some(f) => f,
        None => d,
    }
}

/// What is sent for an event: nothing for `NoAction`, an error when no path
/// is registered, else the signal carrying the value.
pub open spec fn emission_spec(event: DBusEvent, has_path: bool) -> Result<Option<Emission>, EmitError> {
    if event.action == Action::NoAction {
        Ok(None)
    } else if !has_path {
        Err(EmitError::NoPath)
    } else {
        Ok(
            Some(
                match event.value {
                    InputValue::Bool(b) => Emission::Input {
                        action: event.action,
                        value: if b {
                            Fraction { num: 1, den: 1 }
                        } else {
                            Fraction { num: 0, den: 1 }
                        },
                    },
                    InputValue::Float(f) => Emission::Input { action: event.action, value: f },
                    InputValue::Touch { index, is_touching, pressure, x, y } => Emission::Touch {
                        action: event.action,
                        index: index as u32,
                        is_touching,
                        pressure: or_value(pressure, Fraction { num: 1, den: 1 }),
                        x: or_value(x, Fraction { num: 0, den: 1 }),
                        y: or_value(y, Fraction { num: 0, den: 1 }),
                    },
                },
            ),
        )
    }
}

fn or_fraction(o: Option<Fraction>, d: Fraction) -> (r: Fraction)
    ensures
        r == or_value(o, d),
{
    match o {
        Some(f) => f,
        None => d,
    }
}

/// Decides what to send for one event, given whether a bus path is
/// registered.
pub fn plan_emission(event: &DBusEvent, has_path: bool) -> (r: Result<Option<Emission>, EmitError>)
    ensures
        r == emission_spec(*event, has_path),
{
    if let Action::NoAction = event.action {
        return Ok(None);
    }
    if !has_path {
        return Err(EmitError::NoPath);
    }
    let emission = match event.value {
        InputValue::Bool(b) => Emission::Input {
            action: event.action,
            value: if b {
                Fraction::one()
            } else {
                Fraction::zero()
            },
        },
        InputValue::Float(f) => Emission::Input { action: event.action, value: f },
        InputValue::Touch { index, is_touching, pressure, x, y } => Emission::Touch {
            action: event.action,
            index: index as u32,
            is_touching,
            pressure: or_fraction(pressure, Fraction::one()),
            x: or_fraction(x, Fraction::zero()),
            y: or_fraction(y, Fraction::zero()),
        },
    };
    Ok(Some(emission))
}

} // verus!
