//! Wire layout of the controller's input reports: report ids, packet sizes,
//! classification of a received packet, and unpacking of the gamepad report.
use vstd::prelude::*;

verus! {

pub const DINPUT_PACKET_SIZE: usize = 13;
pub const XINPUT_PACKET_SIZE: usize = 60;
pub const KEYBOARD_PACKET_SIZE: usize = 15;
pub const MOUSE_PACKET_SIZE: usize = 8;
pub const TOUCHPAD_PACKET_SIZE: usize = 21;

pub const DINPUTLEFT_DATA: u8 = 0x07;
pub const DINPUTRIGHT_DATA: u8 = 0x08;
pub const KEYBOARD_TOUCH_DATA: u8 = 0x01;
pub const MOUSEFPS_DATA: u8 = 0x02;
pub const MOUSE_DATA: u8 = 0x09;
pub const XINPUT_DATA: u8 = 0x04;

/// The independent report types that the controller sends.
#[derive(Clone, Copy, Debug, PartialEq, Eq, Structural)]
pub enum ReportFamily {
    DInputLeft,
    DInputRight,
    Keyboard,
    Mouse,
    Touchpad,
    XInput,
}

/// Why a packet was refused by the decoder.
#[derive(Clone, Copy, Debug, PartialEq, Eq, Structural)]
pub enum PollError {
    /// The declared or received size does not match the report id's family.
    /// `expected` is the size of the first family that the id names.
    MalformedPacket { report_id: u8, expected: usize, declared: usize, actual: usize },
}

/// Outcome of classifying one received packet.
#[derive(Clone, Copy, Debug, PartialEq, Eq, Structural)]
pub enum PacketKind {
    /// A report id that no family uses: housekeeping traffic, ignored.
    Unrecognized,
    Malformed(PollError),
    Family(ReportFamily),
}

/// Fixed packet size of each family.
pub open spec fn family_size(f: ReportFamily) -> usize {
    match f {
        ReportFamily::DInputLeft => DINPUT_PACKET_SIZE,
        ReportFamily::DInputRight => DINPUT_PACKET_SIZE,
        ReportFamily::Keyboard => KEYBOARD_PACKET_SIZE,
        ReportFamily::Mouse => MOUSE_PACKET_SIZE,
        ReportFamily::Touchpad => TOUCHPAD_PACKET_SIZE,
        ReportFamily::XInput => XINPUT_PACKET_SIZE,
    }
}

/// First byte of the packet; a packet too short to hold one reads as id 0.
pub open spec fn report_id(p: Seq<u8>) -> u8 {
    if p.len() > 0 {
        p[0]
    } else {
        0
    }
}

/// Second byte of the packet; a packet too short to hold one reads as 0.
pub open spec fn declared_size(p: Seq<u8>) -> usize {
    if p.len() > 1 {
        p[1] as usize
    } else {
        0
    }
}

/// Both the declared size and the number of bytes received equal `size`.
pub open spec fn fits(p: Seq<u8>, size: usize) -> bool {
    declared_size(p) == size && p.len() == size
}

/// The error for a packet that does not fit `expected`.
pub open spec fn malformed(p: Seq<u8>, expected: usize) -> PollError {
    PollError::MalformedPacket {
        report_id: report_id(p),
        expected,
        declared: declared_size(p),
        actual: p.len() as usize,
    }
}

/// The family of `f` if the packet fits its size, else a malformed packet.
pub open spec fn sized(p: Seq<u8>, f: ReportFamily) -> PacketKind {
    if fits(p, family_size(f)) {
        PacketKind::Family(f)
    } else {
        PacketKind::Malformed(malformed(p, family_size(f)))
    }
}

/// How a received packet is to be handled.
pub open spec fn classify_spec(p: Seq<u8>) -> PacketKind {
    let id = report_id(p);
    if id == DINPUTLEFT_DATA {
        sized(p, ReportFamily::DInputLeft)
    } else if id == DINPUTRIGHT_DATA {
        sized(p, ReportFamily::DInputRight)
    } else if id == KEYBOARD_TOUCH_DATA {
        if fits(p, KEYBOARD_PACKET_SIZE) {
            PacketKind::Family(ReportFamily::Keyboard)
        } else if fits(p, TOUCHPAD_PACKET_SIZE) {
            PacketKind::Family(ReportFamily::Touchpad)
        } else {
            PacketKind::Malformed(malformed(p, KEYBOARD_PACKET_SIZE))
        }
    } else if id == MOUSE_DATA || id == MOUSEFPS_DATA {
        sized(p, ReportFamily::Mouse)
    } else if id == XINPUT_DATA {
        sized(p, ReportFamily::XInput)
    } else {
        PacketKind::Unrecognized
    }
}

/// Size of a family's packet.
pub fn family_packet_size(f: ReportFamily) -> (r: usize)
    ensures
        r == family_size(f),
{
    match f {
        ReportFamily::DInputLeft => DINPUT_PACKET_SIZE,
        ReportFamily::DInputRight => DINPUT_PACKET_SIZE,
        ReportFamily::Keyboard => KEYBOARD_PACKET_SIZE,
        ReportFamily::Mouse => MOUSE_PACKET_SIZE,
        ReportFamily::Touchpad => TOUCHPAD_PACKET_SIZE,
        ReportFamily::XInput => XINPUT_PACKET_SIZE,
    }
}

fn packet_fits(packet: &[u8], size: usize) -> (r: bool)
    ensures
        r == fits(packet@, size),
{
    let declared: usize = if packet.len() > 1 {
        packet[1] as usize
    } else {
        0
    };
    declared == size && packet.len() == size
}

fn malformed_error(packet: &[u8], expected: usize) -> (r: PollError)
    ensures
        r == malformed(packet@, expected),
{
    let report_id: u8 = if packet.len() > 0 {
        packet[0]
    } else {
        0
    };
    let declared: usize = if packet.len() > 1 {
        packet[1] as usize
    } else {
        0
    };
    PollError::MalformedPacket { report_id, expected, declared, actual: packet.len() }
}

fn sized_family(packet: &[u8], f: ReportFamily) -> (r: PacketKind)
    ensures
        r == sized(packet@, f),
{
    let size = family_packet_size(f);
    if packet_fits(packet, size) {
        PacketKind::Family(f)
    } else {
        PacketKind::Malformed(malformed_error(packet, size))
    }
}

/// Validates a received packet against the report id's family: the id must
/// be known, and both the declared size byte and the number of bytes
/// received must equal the family's size. Keyboard and touchpad reports
/// share an id and are told apart by their size.
pub fn classify(packet: &[u8]) -> (r: PacketKind)
    ensures
        r == classify_spec(packet@),
{
    let id: u8 = if packet.len() > 0 {
        packet[0]
    } else {
        0
    };
    if id == DINPUTLEFT_DATA {
        sized_family(packet, ReportFamily::DInputLeft)
    } else if id == DINPUTRIGHT_DATA {
        sized_family(packet, ReportFamily::DInputRight)
    } else if id == KEYBOARD_TOUCH_DATA {
        if packet_fits(packet, KEYBOARD_PACKET_SIZE) {
            PacketKind::Family(ReportFamily::Keyboard)
        } else if packet_fits(packet, TOUCHPAD_PACKET_SIZE) {
            PacketKind::Family(ReportFamily::Touchpad)
        } else {
            PacketKind::Malformed(malformed_error(packet, KEYBOARD_PACKET_SIZE))
        }
    } else if id == MOUSE_DATA || id == MOUSEFPS_DATA {
        sized_family(packet, ReportFamily::Mouse)
    } else if id == XINPUT_DATA {
        sized_family(packet, ReportFamily::XInput)
    } else {
        PacketKind::Unrecognized
    }
}

} // verus!
