use usb_midi::event::{cable_number, Event, Note};

fn packet(b0: u8, b1: u8, b2: u8, b3: u8) -> [u8; 4] {
    [b0, b1, b2, b3]
}

#[test]
fn decode_table_all_cins() {
    let b1 = 0x12u8;
    let b2 = 0x34u8;
    let b3 = 0x56u8;
    let expected = [
        Event::Misc,
        Event::Cable,
        Event::SystemCommon2(b1, b2),
        Event::SystemCommon3(b1, b2, b3),
        Event::SysExStartCont(b1, b2, b3),
        Event::SystemCommon1SysExEnd1(b1),
        Event::SysExEnd2(b1, b2),
        Event::SysExEnd3(b1, b2, b3),
        Event::NoteOff(b1, Note(b2), b3),
        Event::NoteOn(b1, Note(b2), b3),
        Event::PolyKeyPress(b1, b2, b3),
        Event::ControlChange(b1, b2, b3),
        Event::ProgramChange(b1, b2),
        Event::ChannelPressure(b1, b2),
        Event::PitchBendChange(b1, b2, b3),
        Event::SingleByte(b1),
    ];
    for cin in 0u8..16 {
        // The cable nibble must not influence decoding.
        for cable in [0u8, 7, 15] {
            let p = packet((cable << 4) | cin, b1, b2, b3);
            assert_eq!(Event::new(&p), expected[cin as usize]);
            assert_eq!(cable_number(p[0]), cable);
        }
    }
}

#[test]
fn decode_ignores_trailing_bytes_per_kind() {
    // A 1-data-byte kind drops bytes 2 and 3, whatever they hold.
    assert_eq!(Event::new(&packet(0x3F, 0xAA, 0x01, 0x02)), Event::SingleByte(0xAA));
    assert_eq!(Event::new(&packet(0xF5, 0xAA, 0xFF, 0xFF)), Event::SystemCommon1SysExEnd1(0xAA));
    // The reserved kinds drop all three.
    assert_eq!(Event::new(&packet(0x30, 0xAA, 0xBB, 0xCC)), Event::Misc);
    assert_eq!(Event::new(&packet(0x21, 0xAA, 0xBB, 0xCC)), Event::Cable);
}

#[test]
fn noteon_scenario() {
    // CIN 0x9 with status 0x90, note 0x35, velocity 0x7C.
    let p = packet(0x89, 0x90, 0x35, 0x7C);
    assert_eq!(Event::new(&p), Event::NoteOn(0x90, Note(0x35), 0x7C));
    // Byte 0 is (cable << 4) | CIN, so 0x89 carries cable 8.
    assert_eq!(cable_number(p[0]), 8);
    // The same event on cable 0 has byte 0 == 0x09.
    let q = packet(0x09, 0x90, 0x35, 0x7C);
    assert_eq!(Event::new(&q), Event::NoteOn(0x90, Note(0x35), 0x7C));
    assert_eq!(cable_number(q[0]), 0);
}

#[test]
fn encode_noteon_on_cable_one() {
    // The NoteOn echo packet the transport loop writes back to the host.
    let e = Event::NoteOn(147, Note(53), 124);
    assert_eq!(e.to_packet(1), vec![0x19, 0x93, 0x35, 0x7C]);
}

#[test]
fn encode_then_decode_round_trip() {
    let events = [
        Event::Misc,
        Event::Cable,
        Event::SystemCommon2(0x01, 0x02),
        Event::SystemCommon3(0x01, 0x02, 0x03),
        Event::SysExStartCont(0xF0, 0x11, 0x22),
        Event::SystemCommon1SysExEnd1(0xF6),
        Event::SysExEnd2(0x33, 0xF7),
        Event::SysExEnd3(0x44, 0x55, 0xF7),
        Event::NoteOff(0x80, Note(60), 0x40),
        Event::NoteOn(0x90, Note(60), 0x7F),
        Event::PolyKeyPress(0xA0, 60, 10),
        Event::ControlChange(0xB0, 7, 100),
        Event::ProgramChange(0xC0, 5),
        Event::ChannelPressure(0xD0, 33),
        Event::PitchBendChange(0xE0, 0x00, 0x40),
        Event::SingleByte(0xF8),
    ];
    for cable in [0u8, 3, 15] {
        for e in events {
            let p = e.to_packet(cable);
            assert_eq!(Event::new(&p), e);
            assert_eq!(cable_number(p[0]), cable);
        }
    }
}

#[test]
fn note_names() {
    // 0x35 = 53: pitch class F, octave 53/12 - 2 = 2.
    assert_eq!(Note(0x35).format(), "F-2");
    // Notes below octave 0 use the lower-case table.
    assert_eq!(Note(0).format(), "c-2");
    assert_eq!(Note(11).format(), "b-2");
    assert_eq!(Note(12).format(), "c-1");
    assert_eq!(Note(13).format(), "c#1");
    // First non-negative octave.
    assert_eq!(Note(24).format(), "C-0");
    assert_eq!(Note(25).format(), "C#0");
    // Top of the MIDI range.
    assert_eq!(Note(127).format(), "G-8");
}
