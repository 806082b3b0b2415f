//! The controller driver: remembers the last decoded report of each family
//! and turns each received packet into the events that changed since.
use vstd::prelude::*;
use vstd::slice::slice_to_vec;

use crate::event::{AccelerometerName, Event};
use crate::report::{classify, classify_spec, PacketKind, PollError, ReportFamily};
use crate::xinput::{
    left_accelerometer, right_accelerometer, xinput_diff, xinput_events, xinput_of,
    XInputDataReport,
};

verus! {

/// The driver's memory: for each report family, the bytes (or, for the
/// gamepad, the decoded report) of the last packet accepted, absent until
/// the first one.
pub struct DriverState {
    pub dinput_left: Option<Seq<u8>>,
    pub dinput_right: Option<Seq<u8>>,
    pub keyboard: Option<Seq<u8>>,
    pub mouse: Option<Seq<u8>>,
    pub touchpad: Option<Seq<u8>>,
    pub xinput: Option<XInputDataReport>,
}

/// The state in which a driver starts: nothing seen yet.
pub open spec fn empty_state() -> DriverState {
    DriverState {
        dinput_left: None,
        dinput_right: None,
        keyboard: None,
        mouse: None,
        touchpad: None,
        xinput: None,
    }
}

/// Events of a gamepad report `n`, given the previous one if any. On the
/// first report there is nothing to compare with, so only the continuously
/// sampled accelerometers are reported.
pub open spec fn xinput_report_events(prev: Option<XInputDataReport>, n: XInputDataReport) -> Seq<
    Event,
> {
    match prev {
        Some(o) => xinput_events(o, n),
        None => seq![left_accelerometer(n), right_accelerometer(n)],
    }
}

/// Stores an accepted packet of family `f` and yields its events. Only the
/// gamepad family produces events; the others are remembered without any.
pub open spec fn accept(s: DriverState, f: ReportFamily, p: Seq<u8>) -> (
    DriverState,
    Seq<Event>,
) {
    match f {
        ReportFamily::DInputLeft => (DriverState { dinput_left: Some(p), ..s }, seq![]),
        ReportFamily::DInputRight => (DriverState { dinput_right: Some(p), ..s }, seq![]),
        ReportFamily::Keyboard => (DriverState { keyboard: Some(p), ..s }, seq![]),
        ReportFamily::Mouse => (DriverState { mouse: Some(p), ..s }, seq![]),
        ReportFamily::Touchpad => (DriverState { touchpad: Some(p), ..s }, seq![]),
        ReportFamily::XInput => {
            let n = xinput_of(p);
            (DriverState { xinput: Some(n), ..s }, xinput_report_events(s.xinput, n))
        },
    }
}

/// One poll: the next state and what the poll returns. Unrecognized report
/// ids and malformed packets leave the state as it was.
pub open spec fn poll_spec(s: DriverState, p: Seq<u8>) -> (DriverState, Result<Seq<Event>, PollError>) {
    match classify_spec(p) {
        PacketKind::Unrecognized => (s, Ok(seq![])),
        PacketKind::Malformed(e) => (s, Err(e)),
        PacketKind::Family(f) => {
            let (s2, events) = accept(s, f, p);
            (s2, Ok(events))
        },
    }
}

/// A poll result with its event list viewed as a sequence.
pub open spec fn events_view(r: Result<Vec<Event>, PollError>) -> Result<Seq<Event>, PollError> {
    match r {
        Ok(v) => Ok(v@),
        Err(e) => Err(e),
    }
}

/// A stored packet viewed as a byte sequence.
pub open spec fn bytes_view(o: Option<Vec<u8>>) -> Option<Seq<u8>> {
    match o {
        Some(v) => Some(v@),
        None => None,
    }
}

/// Driver for one controller: one slot per report family.
pub struct Driver {
    dinputl_state: Option<Vec<u8>>,
    dinputr_state: Option<Vec<u8>>,
    keyboard_state: Option<Vec<u8>>,
    mouse_state: Option<Vec<u8>>,
    touchpad_state: Option<Vec<u8>>,
    xinput_state: Option<XInputDataReport>,
}

impl View for Driver {
    type V = DriverState;

    closed spec fn view(&self) -> DriverState {
        DriverState {
            dinput_left: bytes_view(self.dinputl_state),
            dinput_right: bytes_view(self.dinputr_state),
            keyboard: bytes_view(self.keyboard_state),
            mouse: bytes_view(self.mouse_state),
            touchpad: bytes_view(self.touchpad_state),
            xinput: self.xinput_state,
        }
    }
}

impl Driver {
    /// A driver that has seen no report yet.
    pub fn new() -> (r: Driver)
        ensures
            r@ == empty_state(),
    {
        Driver {
            dinputl_state: None,
            dinputr_state: None,
            keyboard_state: None,
            mouse_state: None,
            touchpad_state: None,
            xinput_state: None,
        }
    }

    /// Handles one packet as received from the device (`packet` holds
    /// exactly the bytes read). A packet of a known family with the right
    /// size replaces that family's stored report and yields the events since
    /// the previous one; an unknown report id yields no events; a malformed
    /// packet yields an error. In the last two cases nothing is stored.
    pub fn poll(&mut self, packet: &[u8]) -> (r: Result<Vec<Event>, PollError>)
        ensures
            (final(self)@, events_view(r)) == poll_spec(old(self)@, packet@),
    {
        match classify(packet) {
            PacketKind::Unrecognized => Ok(Vec::new()),
            PacketKind::Malformed(e) => Err(e),
            PacketKind::Family(ReportFamily::XInput) => Ok(self.handle_xinput_report(packet)),
            PacketKind::Family(f) => {
                self.handle_payload_report(f, packet);
                Ok(Vec::new())
            },
        }
    }

    /// Stores the packet of a family that produces no events.
    fn handle_payload_report(&mut self, f: ReportFamily, packet: &[u8])
        requires
            f != ReportFamily::XInput,
        ensures
            final(self)@ == accept(old(self)@, f, packet@).0,
    {
        let data = slice_to_vec(packet);
        match f {
            ReportFamily::DInputLeft => self.dinputl_state = Some(data),
            ReportFamily::DInputRight => self.dinputr_state = Some(data),
            ReportFamily::Keyboard => self.keyboard_state = Some(data),
            ReportFamily::Mouse => self.mouse_state = Some(data),
            ReportFamily::Touchpad => self.touchpad_state = Some(data),
            ReportFamily::XInput => {},
        }
    }

    /// Unpacks a gamepad packet, stores it, and yields its events.
    fn handle_xinput_report(&mut self, packet: &[u8]) -> (r: Vec<Event>)
        requires
            packet@.len() == 60,
        ensures
            (final(self)@, r@) == accept(old(self)@, ReportFamily::XInput, packet@),
    {
        let input_report = XInputDataReport::unpack(packet);
        let old_state = self.update_xinput_state(input_report);
        self.translate_xinput(old_state)
    }

    /// Stores a gamepad report, returning the one stored before.
    fn update_xinput_state(&mut self, input_report: XInputDataReport) -> (r: Option<
        XInputDataReport,
    >)
        ensures
            r == old(self).xinput_state,
            final(self)@ == (DriverState { xinput: Some(input_report), ..old(self)@ }),
    {
        let old_state = self.xinput_state;
        self.xinput_state = Some(input_report);
        old_state
    }

    /// The events of the stored gamepad report, given the one before.
    fn translate_xinput(&self, old_state: Option<XInputDataReport>) -> (r: Vec<Event>)
        requires
            self.xinput_state is Some,
        ensures
            r@ == xinput_report_events(old_state, self.xinput_state->Some_0),
    {
        let state = match self.xinput_state {
            Some(s) => s,
            None => {
                return Vec::new();
            },
        };
        match old_state {
            Some(old_report) => xinput_diff(&old_report, &state),
            None => {
                let mut events: Vec<Event> = Vec::new();
                events.push(
                    Event::Accelerometer {
                        name: AccelerometerName::LeftAccelerometer,
                        x: state.left_accel_0 as u16,
                        y: state.left_accel_1 as u16,
                    },
                );
                events.push(
                    Event::Accelerometer {
                        name: AccelerometerName::RightAccelerometer,
                        x: state.right_accel_0 as u16,
                        y: state.right_accel_1 as u16,
                    },
                );
                assert(events@ =~= xinput_report_events(old_state, state));
                events
            },
        }
    }
}

} // verus!
