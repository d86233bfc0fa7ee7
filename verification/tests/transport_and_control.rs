use usb_midi::control::{Control, Handler, State};
use usb_midi::descriptor::ClassDescriptorBlock;
use usb_midi::device::{UsbBuffers, UsbDeviceBuilder};
use usb_midi::event::{Event, Note};
use usb_midi::transport::{process_packets, step, LinkAction, LinkEvent, LinkState};

#[test]
fn disconnect_during_read_scenario() {
    // Connected, then the in-flight read fails: back to Disconnected, and
    // the next action is to wait for the host to re-enable the endpoint.
    let (s, a) = step(LinkState::Connected, LinkEvent::ReadFailed);
    assert_eq!(s, LinkState::Disconnected);
    assert_eq!(a, LinkAction::AwaitConnection);
    // The wait parks until the host re-enables; only Enabled reconnects.
    let (s2, a2) = step(s, LinkEvent::ReadOk);
    assert_eq!(s2, LinkState::Disconnected);
    assert_eq!(a2, LinkAction::AwaitConnection);
    let (s3, a3) = step(s2, LinkEvent::Enabled);
    assert_eq!(s3, LinkState::Connected);
    assert_eq!(a3, LinkAction::ReadPackets);
}

#[test]
fn write_failure_disconnects() {
    let (s, a) = step(LinkState::Connected, LinkEvent::WriteFailed);
    assert_eq!(s, LinkState::Disconnected);
    assert_eq!(a, LinkAction::AwaitConnection);
}

#[test]
fn connected_keeps_reading() {
    for e in [LinkEvent::ReadOk, LinkEvent::WriteOk, LinkEvent::Enabled] {
        let (s, a) = step(LinkState::Connected, e);
        assert_eq!(s, LinkState::Connected);
        assert_eq!(a, LinkAction::ReadPackets);
    }
}

#[test]
fn process_buffer_in_strides() {
    // Two whole packets and a ragged tail byte, as a bulk read delivers.
    let buf = [0x09, 0x90, 0x35, 0x7C, 0x18, 0x80, 0x30, 0x40, 0xFF];
    let events = process_packets(&buf, 9);
    assert_eq!(events.len(), 2);
    assert_eq!(events[0], (0, Event::NoteOn(0x90, Note(0x35), 0x7C)));
    assert_eq!(events[1], (1, Event::NoteOff(0x80, Note(0x30), 0x40)));
    // Only the first `cnt` bytes of the buffer were filled by the read.
    let events = process_packets(&buf, 4);
    assert_eq!(events.len(), 1);
    assert_eq!(process_packets(&buf, 0).len(), 0);
    assert_eq!(process_packets(&buf, 3).len(), 0);
}

#[test]
fn write_on_one_port_configuration() {
    // A 1-port configuration exists; the codec carries cable 1 through
    // without a range check, though only cable 0 names a real port.
    let block = ClassDescriptorBlock::try_new(1, 2);
    assert!(block.is_some());
    let e = Event::NoteOn(0x93, Note(0x35), 0x7C);
    let p = e.to_packet(1);
    assert_eq!(p, vec![0x19, 0x93, 0x35, 0x7C]);
    let back = process_packets(&p, 4);
    assert_eq!(back[0], (1, e));
}

#[test]
fn handler_string_table() {
    let h = Handler::new();
    assert_eq!(h.get_string(1, 0x0409), Some("Eins"));
    assert_eq!(h.get_string(5, 0x0409), Some("Fünf"));
    assert_eq!(h.get_string(8, 0x0409), Some("Acht"));
    assert_eq!(h.get_string(0, 0x0409), None);
    assert_eq!(h.get_string(9, 0x0409), None);
}

#[test]
fn control_string_table_uses_offset() {
    let c = Control { string_offset: 4 };
    assert_eq!(c.get_string(4, 0), Some("Port 1"));
    assert_eq!(c.get_string(11, 0), Some("Port 8"));
    assert_eq!(c.get_string(12, 0), None);
    assert_eq!(c.get_string(3, 0), None);
}

#[test]
fn state_cell_starts_empty_and_initializes_once() {
    let mut state = State::new();
    assert!(state.control.is_none());
    state.init_control(4);
    assert_eq!(state.control, Some(Control { string_offset: 4 }));
}

#[test]
fn build_buffers_start_zeroed() {
    let buffers = UsbBuffers::new();
    assert!(buffers.device_descriptor.iter().all(|b| *b == 0));
    assert!(buffers.config_descriptor.iter().all(|b| *b == 0));
    assert!(buffers.bos_descriptor.iter().all(|b| *b == 0));
    assert!(buffers.control_buf.iter().all(|b| *b == 0));
    assert!(buffers.ep_out_buffer.iter().all(|b| *b == 0));

    let builder = UsbDeviceBuilder::new();
    assert!(builder.state.control.is_none());
    assert!(builder.config_descriptor.iter().all(|b| *b == 0));
}
