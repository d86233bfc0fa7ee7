//! The USB-MIDI event codec: a stateless, bidirectional mapping between a
//! 4-byte USB-MIDI event packet and a typed `Event`.
//!
//! Byte 0 of a packet is `(CableNumber << 4) | CIN`: the high nibble selects
//! the virtual MIDI port, the low nibble (the Code Index Number) selects the
//! message kind. Bytes 1..=3 carry up to three MIDI data bytes; trailing
//! bytes a kind does not use are ignored on decode and zero on encode.

use vstd::prelude::*;
use vstd::string::StringExecFns;

verus! {

/// A MIDI note number (0..=127 on the wire; any byte is representable).
#[derive(Clone, Copy, Debug, PartialEq, Eq, Structural)]
pub struct Note(pub u8);

/// A USB-MIDI event, keyed by Code Index Number (CIN).
///
/// Every 4-bit CIN has a variant, so decoding is total: the reserved codes
/// 0x0 and 0x1 map to the marker variants `Misc` and `Cable`, which carry no
/// payload and are ignorable rather than erroneous.
#[derive(Clone, Copy, Debug, PartialEq, Eq, Structural)]
pub enum Event {
    Misc,
    Cable,
    SystemCommon2(u8, u8),
    SystemCommon3(u8, u8, u8),
    SysExStartCont(u8, u8, u8),
    SystemCommon1SysExEnd1(u8),
    SysExEnd2(u8, u8),
    SysExEnd3(u8, u8, u8),
    NoteOff(u8, Note, u8),
    NoteOn(u8, Note, u8),
    PolyKeyPress(u8, u8, u8),
    ControlChange(u8, u8, u8),
    ProgramChange(u8, u8),
    ChannelPressure(u8, u8),
    PitchBendChange(u8, u8, u8),
    SingleByte(u8),
}

/// The event a packet with CIN `b0 & 0xf` and data bytes `b1 b2 b3` decodes
/// to, exactly one variant per CIN value, independent of the cable nibble.
pub open spec fn spec_decode(b0: u8, b1: u8, b2: u8, b3: u8) -> Event {
    let cin = b0 & 0xf;
    if cin == 0x0 {
        Event::Misc
    } else if cin == 0x1 {
        Event::Cable
    } else if cin == 0x2 {
        Event::SystemCommon2(b1, b2)
    } else if cin == 0x3 {
        Event::SystemCommon3(b1, b2, b3)
    } else if cin == 0x4 {
        Event::SysExStartCont(b1, b2, b3)
    } else if cin == 0x5 {
        Event::SystemCommon1SysExEnd1(b1)
    } else if cin == 0x6 {
        Event::SysExEnd2(b1, b2)
    } else if cin == 0x7 {
        Event::SysExEnd3(b1, b2, b3)
    } else if cin == 0x8 {
        Event::NoteOff(b1, Note(b2), b3)
    } else if cin == 0x9 {
        Event::NoteOn(b1, Note(b2), b3)
    } else if cin == 0xa {
        Event::PolyKeyPress(b1, b2, b3)
    } else if cin == 0xb {
        Event::ControlChange(b1, b2, b3)
    } else if cin == 0xc {
        Event::ProgramChange(b1, b2)
    } else if cin == 0xd {
        Event::ChannelPressure(b1, b2)
    } else if cin == 0xe {
        Event::PitchBendChange(b1, b2, b3)
    } else {
        Event::SingleByte(b1)
    }
}

/// The cable number carried in byte 0 of a packet.
pub open spec fn spec_cable(b0: u8) -> u8 {
    b0 >> 4
}

impl Event {
    /// Decodes one 4-byte USB-MIDI packet. Total: every CIN value yields a
    /// variant, and the cable nibble of byte 0 does not influence the result.
    pub fn new(data: &[u8]) -> (r: Event)
        requires
            data@.len() == 4,
        ensures
            r == spec_decode(data@[0], data@[1], data@[2], data@[3]),
    {
        let b0 = data[0];
        let cin = b0 & 0xf;
        proof {
            assert(b0 & 0xf < 16) by (bit_vector);
        }
        match cin {
            0x0 => Event::Misc,
            0x1 => Event::Cable,
            0x2 => Event::SystemCommon2(data[1], data[2]),
            0x3 => Event::SystemCommon3(data[1], data[2], data[3]),
            0x4 => Event::SysExStartCont(data[1], data[2], data[3]),
            0x5 => Event::SystemCommon1SysExEnd1(data[1]),
            0x6 => Event::SysExEnd2(data[1], data[2]),
            0x7 => Event::SysExEnd3(data[1], data[2], data[3]),
            0x8 => Event::NoteOff(data[1], Note(data[2]), data[3]),
            0x9 => Event::NoteOn(data[1], Note(data[2]), data[3]),
            0xa => Event::PolyKeyPress(data[1], data[2], data[3]),
            0xb => Event::ControlChange(data[1], data[2], data[3]),
            0xc => Event::ProgramChange(data[1], data[2]),
            0xd => Event::ChannelPressure(data[1], data[2]),
            0xe => Event::PitchBendChange(data[1], data[2], data[3]),
            0xf => Event::SingleByte(data[1]),
            _ => vstd::pervasive::unreached(),
        }
    }
}

/// The Code Index Number a variant encodes to.
pub open spec fn spec_cin(e: Event) -> u8 {
    match e {
        Event::Misc => 0x0,
        Event::Cable => 0x1,
        Event::SystemCommon2(..) => 0x2,
        Event::SystemCommon3(..) => 0x3,
        Event::SysExStartCont(..) => 0x4,
        Event::SystemCommon1SysExEnd1(..) => 0x5,
        Event::SysExEnd2(..) => 0x6,
        Event::SysExEnd3(..) => 0x7,
        Event::NoteOff(..) => 0x8,
        Event::NoteOn(..) => 0x9,
        Event::PolyKeyPress(..) => 0xa,
        Event::ControlChange(..) => 0xb,
        Event::PitchBendChange(..) => 0xe,
        Event::ProgramChange(..) => 0xc,
        Event::ChannelPressure(..) => 0xd,
        Event::SingleByte(..) => 0xf,
    }
}

/// The three data bytes a variant encodes to; bytes a kind does not use
/// are zero.
pub open spec fn spec_payload_bytes(e: Event) -> (u8, u8, u8) {
    match e {
        Event::Misc => (0u8, 0u8, 0u8),
        Event::Cable => (0u8, 0u8, 0u8),
        Event::SystemCommon2(a, b) => (a, b, 0u8),
        Event::SystemCommon3(a, b, c) => (a, b, c),
        Event::SysExStartCont(a, b, c) => (a, b, c),
        Event::SystemCommon1SysExEnd1(a) => (a, 0u8, 0u8),
        Event::SysExEnd2(a, b) => (a, b, 0u8),
        Event::SysExEnd3(a, b, c) => (a, b, c),
        Event::NoteOff(ch, n, v) => (ch, n.0, v),
        Event::NoteOn(ch, n, v) => (ch, n.0, v),
        Event::PolyKeyPress(a, b, c) => (a, b, c),
        Event::ControlChange(a, b, c) => (a, b, c),
        Event::ProgramChange(a, b) => (a, b, 0u8),
        Event::ChannelPressure(a, b) => (a, b, 0u8),
        Event::PitchBendChange(a, b, c) => (a, b, c),
        Event::SingleByte(a) => (a, 0u8, 0u8),
    }
}

/// The 4-byte packet that carries `e` on cable `cable`.
pub open spec fn spec_encode(cable: u8, e: Event) -> Seq<u8> {
    seq![
        (cable << 4) | spec_cin(e),
        spec_payload_bytes(e).0,
        spec_payload_bytes(e).1,
        spec_payload_bytes(e).2,
    ]
}

impl Event {
    /// Encodes the event as the 4-byte packet for the given cable: the
    /// inverse construction used when emitting events to the host.
    pub fn to_packet(&self, cable: u8) -> (p: Vec<u8>)
        requires
            cable < 16,
        ensures
            p@ == spec_encode(cable, *self),
    {
        let cin: u8 = match self {
            Event::Misc => 0x0,
            Event::Cable => 0x1,
            Event::SystemCommon2(..) => 0x2,
            Event::SystemCommon3(..) => 0x3,
            Event::SysExStartCont(..) => 0x4,
            Event::SystemCommon1SysExEnd1(..) => 0x5,
            Event::SysExEnd2(..) => 0x6,
            Event::SysExEnd3(..) => 0x7,
            Event::NoteOff(..) => 0x8,
            Event::NoteOn(..) => 0x9,
            Event::PolyKeyPress(..) => 0xa,
            Event::ControlChange(..) => 0xb,
            Event::ProgramChange(..) => 0xc,
            Event::ChannelPressure(..) => 0xd,
            Event::PitchBendChange(..) => 0xe,
            Event::SingleByte(..) => 0xf,
        };
        let (b1, b2, b3): (u8, u8, u8) = match *self {
            Event::Misc => (0, 0, 0),
            Event::Cable => (0, 0, 0),
            Event::SystemCommon2(a, b) => (a, b, 0),
            Event::SystemCommon3(a, b, c) => (a, b, c),
            Event::SysExStartCont(a, b, c) => (a, b, c),
            Event::SystemCommon1SysExEnd1(a) => (a, 0, 0),
            Event::SysExEnd2(a, b) => (a, b, 0),
            Event::SysExEnd3(a, b, c) => (a, b, c),
            Event::NoteOff(ch, n, v) => (ch, n.0, v),
            Event::NoteOn(ch, n, v) => (ch, n.0, v),
            Event::PolyKeyPress(a, b, c) => (a, b, c),
            Event::ControlChange(a, b, c) => (a, b, c),
            Event::ProgramChange(a, b) => (a, b, 0),
            Event::ChannelPressure(a, b) => (a, b, 0),
            Event::PitchBendChange(a, b, c) => (a, b, c),
            Event::SingleByte(a) => (a, 0, 0),
        };
        let mut p: Vec<u8> = Vec::new();
        p.push((cable << 4) | cin);
        p.push(b1);
        p.push(b2);
        p.push(b3);
        proof {
            assert(p@ =~= spec_encode(cable, *self));
        }
        p
    }
}

/// Encoding then decoding is the identity: the packet built for an event
/// on a cable decodes back to that event, and the cable nibble reads back
/// unchanged. (The converse need not hold: decoding ignores trailing data
/// bytes a kind does not use, which encode leaves zero.)
pub proof fn lemma_encode_decode(cable: u8, e: Event)
    requires
        cable < 16,
    ensures
        spec_decode(
            spec_encode(cable, e)[0],
            spec_encode(cable, e)[1],
            spec_encode(cable, e)[2],
            spec_encode(cable, e)[3],
        ) == e,
        spec_cable(spec_encode(cable, e)[0]) == cable,
{
    let cin = spec_cin(e);
    assert(cin < 16);
    assert(cable < 16 && cin < 16 ==> ((cable << 4) | cin) & 0xf == cin) by (bit_vector);
    assert(cable < 16 && cin < 16 ==> ((cable << 4) | cin) >> 4 == cable) by (bit_vector);
}

/// The letter name of pitch class `idx` (0..12), upper case for octaves
/// at or above zero, lower case below.
pub open spec fn spec_note_letter(idx: int, lower: bool) -> Seq<char> {
    if lower {
        if idx == 0 { "c-"@ }
        else if idx == 1 { "c#"@ }
        else if idx == 2 { "d-"@ }
        else if idx == 3 { "d#"@ }
        else if idx == 4 { "e-"@ }
        else if idx == 5 { "f-"@ }
        else if idx == 6 { "f#"@ }
        else if idx == 7 { "g-"@ }
        else if idx == 8 { "g#"@ }
        else if idx == 9 { "a-"@ }
        else if idx == 10 { "a#"@ }
        else { "b-"@ }
    } else {
        if idx == 0 { "C-"@ }
        else if idx == 1 { "C#"@ }
        else if idx == 2 { "D-"@ }
        else if idx == 3 { "D#"@ }
        else if idx == 4 { "E-"@ }
        else if idx == 5 { "F-"@ }
        else if idx == 6 { "F#"@ }
        else if idx == 7 { "G-"@ }
        else if idx == 8 { "G#"@ }
        else if idx == 9 { "A-"@ }
        else if idx == 10 { "A#"@ }
        else { "B-"@ }
    }
}

/// The decimal digit naming octave magnitude `a` (0..=8).
pub open spec fn spec_octave_digit(a: int) -> Seq<char> {
    if a == 0 { "0"@ }
    else if a == 1 { "1"@ }
    else if a == 2 { "2"@ }
    else if a == 3 { "3"@ }
    else if a == 4 { "4"@ }
    else if a == 5 { "5"@ }
    else if a == 6 { "6"@ }
    else if a == 7 { "7"@ }
    else { "8"@ }
}

/// The display name of a MIDI note: its letter name (lower case for
/// negative octaves) followed by the octave magnitude, where the octave is
/// `note / 12 - 2`.
pub open spec fn spec_note_name(note: u8) -> Seq<char> {
    let octave = note as int / 12 - 2;
    let magnitude = if octave < 0 { -octave } else { octave };
    spec_note_letter(note as int % 12, octave < 0) + spec_octave_digit(magnitude)
}

impl Note {
    /// Renders the note for diagnostics as `<LetterName><Sharp?><Octave>`,
    /// e.g. `F-2` for note number 0x35. Defined for the MIDI note range.
    pub fn format(&self) -> (r: String)
        requires
            self.0 <= 127,
        ensures
            r@ == spec_note_name(self.0),
    {
        let oct_div = self.0 / 12;
        let idx = self.0 % 12;
        let lower = oct_div < 2;
        let letter: &str = if lower {
            match idx {
                0 => "c-",
                1 => "c#",
                2 => "d-",
                3 => "d#",
                4 => "e-",
                5 => "f-",
                6 => "f#",
                7 => "g-",
                8 => "g#",
                9 => "a-",
                10 => "a#",
                _ => "b-",
            }
        } else {
            match idx {
                0 => "C-",
                1 => "C#",
                2 => "D-",
                3 => "D#",
                4 => "E-",
                5 => "F-",
                6 => "F#",
                7 => "G-",
                8 => "G#",
                9 => "A-",
                10 => "A#",
                _ => "B-",
            }
        };
        let magnitude = if lower {
            2 - oct_div
        } else {
            oct_div - 2
        };
        let digit: &str = match magnitude {
            0 => "0",
            1 => "1",
            2 => "2",
            3 => "3",
            4 => "4",
            5 => "5",
            6 => "6",
            7 => "7",
            _ => "8",
        };
        String::from_str(letter).concat(digit)
    }
}

/// Extracts the cable number (high nibble of byte 0) of a packet.
pub fn cable_number(b0: u8) -> (r: u8)
    ensures
        r == spec_cable(b0),
        r < 16,
{
    proof {
        assert(b0 >> 4 < 16) by (bit_vector);
    }
    b0 >> 4
}

/// Decoding depends only on the CIN nibble: a packet built from any cable
/// number and a CIN decodes exactly as the bare CIN does.
pub proof fn lemma_decode_ignores_cable(cable: u8, cin: u8, b1: u8, b2: u8, b3: u8)
    requires
        cable < 16,
        cin < 16,
    ensures
        spec_decode((cable << 4) | cin, b1, b2, b3) == spec_decode(cin, b1, b2, b3),
        spec_cable((cable << 4) | cin) == cable,
{
    assert(cable < 16 && cin < 16 ==> ((cable << 4) | cin) & 0xf == cin & 0xf) by (bit_vector);
    assert(cin < 16 ==> cin & 0xf == cin) by (bit_vector);
    assert(cable < 16 && cin < 16 ==> ((cable << 4) | cin) >> 4 == cable) by (bit_vector);
}

} // verus!
