use usb_midi::descriptor::{ClassDescriptorBlock, EndpointDirection, CS_INTERFACE};
use usb_midi::topology::{topology, JackDirection, JackKind};

/// Wire byte count of the whole MS class block: each record carries a
/// 2-byte descriptor prefix, and each bulk endpoint adds its 9-byte
/// standard descriptor before its class-specific one.
fn ms_block_bytes(block: &ClassDescriptorBlock) -> usize {
    let records: usize = block.ms_records.iter().map(|r| 2 + r.payload.len()).sum();
    let out_ep = 9 + 2 + block.out_association.cs_endpoint_payload().len();
    let in_ep = 9 + 2 + block.in_association.cs_endpoint_payload().len();
    records + out_ep + in_ep
}

fn declared_length(block: &ClassDescriptorBlock) -> usize {
    let header = &block.ms_records[0].payload;
    header[3] as usize + 256 * header[4] as usize
}

#[test]
fn length_field_matches_emitted_bytes() {
    for n in 1..=8usize {
        let block = ClassDescriptorBlock::new(n, 2);
        assert_eq!(declared_length(&block), ms_block_bytes(&block));
        assert_eq!(declared_length(&block), 7 + n * 30 + 9 + (4 + n) + 9 + (4 + n));
    }
}

#[test]
fn boundary_port_counts() {
    // Out of range on both sides: rejected at construction.
    assert!(ClassDescriptorBlock::try_new(0, 2).is_none());
    assert!(ClassDescriptorBlock::try_new(9, 2).is_none());
    // String indices must fit in one byte.
    assert!(ClassDescriptorBlock::try_new(8, 250).is_none());
    assert!(ClassDescriptorBlock::try_new(1, 255).is_some());
    // The largest configuration: 8 x 4 jack descriptors plus the MS header
    // and the AudioControl header.
    let block = ClassDescriptorBlock::try_new(8, 2).unwrap();
    assert_eq!(block.ms_records.len(), 33);
    let jack_records = block.ms_records[1..]
        .iter()
        .filter(|r| r.record_type == CS_INTERFACE)
        .count();
    assert_eq!(jack_records, 32);
    assert_eq!(block.ac_header.record_type, CS_INTERFACE);
    assert_eq!(block.ms_records[0].record_type, CS_INTERFACE);
}

#[test]
fn header_bytes() {
    let block = ClassDescriptorBlock::new(2, 2);
    assert_eq!(block.ac_header.payload, vec![0x01, 0x00, 0x01, 0x09, 0x00, 0x01, 0x01]);
    // Total length for n = 2 is 97 = 0x61, little-endian.
    assert_eq!(block.ms_records[0].payload, vec![0x01, 0x00, 0x01, 0x61, 0x00]);
    // For n = 8 the total is 289 = 0x0121: the high byte matters.
    let big = ClassDescriptorBlock::new(8, 2);
    assert_eq!(big.ms_records[0].payload, vec![0x01, 0x00, 0x01, 0x21, 0x01]);
}

#[test]
fn jack_record_bytes_single_port() {
    let block = ClassDescriptorBlock::new(1, 5);
    // Embedded In jack: id 1, named by string index 5.
    assert_eq!(block.ms_records[1].payload, vec![0x02, 0x01, 0x01, 0x05]);
    // External In jack: id 2, unnamed.
    assert_eq!(block.ms_records[2].payload, vec![0x02, 0x02, 0x02, 0x00]);
    // Embedded Out jack: id 3, one pin sourced from jack 2 pin 1, named.
    assert_eq!(block.ms_records[3].payload, vec![0x03, 0x01, 0x03, 0x01, 0x02, 0x01, 0x05]);
    // External Out jack: id 4, one pin sourced from jack 1 pin 1, unnamed.
    assert_eq!(block.ms_records[4].payload, vec![0x03, 0x02, 0x04, 0x01, 0x01, 0x01, 0x00]);
}

#[test]
fn endpoint_associations() {
    let block = ClassDescriptorBlock::new(2, 2);
    assert_eq!(block.out_association.direction, EndpointDirection::BulkOut);
    assert_eq!(block.in_association.direction, EndpointDirection::BulkIn);
    // OUT carries the embedded In jacks, IN the embedded Out jacks.
    assert_eq!(block.out_association.embedded_jack_ids, vec![1, 5]);
    assert_eq!(block.in_association.embedded_jack_ids, vec![3, 7]);
    assert_eq!(block.out_association.cs_endpoint_payload(), vec![0x01, 2, 1, 5]);
    assert_eq!(block.in_association.cs_endpoint_payload(), vec![0x01, 2, 3, 7]);
}

#[test]
fn split_cables_two_ports() {
    let block = ClassDescriptorBlock::new(2, 2);
    assert_eq!(block.split_cables(), (1, 2));
}

#[test]
fn crossed_wiring() {
    for n in 1..=8usize {
        let ports = topology(n);
        assert_eq!(ports.len(), n);
        for (i, port) in ports.iter().enumerate() {
            assert_eq!(port.index as usize, i);
            assert_eq!(port.embedded_in.id as usize, 4 * i + 1);
            assert_eq!(port.external_in.id as usize, 4 * i + 2);
            assert_eq!(port.embedded_out.id as usize, 4 * i + 3);
            assert_eq!(port.external_out.id as usize, 4 * i + 4);
            assert_eq!(port.embedded_in.kind, JackKind::Embedded);
            assert_eq!(port.external_in.kind, JackKind::External);
            assert_eq!(port.embedded_in.direction, JackDirection::In);
            assert_eq!(port.embedded_out.direction, JackDirection::Out);
            // The crossed wiring: embedded Out <- external In,
            // external Out <- embedded In, single pin 1.
            let eo = port.embedded_out.source.unwrap();
            assert_eq!(eo.source_jack_id, port.external_in.id);
            assert_eq!(eo.source_pin, 1);
            let xo = port.external_out.source.unwrap();
            assert_eq!(xo.source_jack_id, port.embedded_in.id);
            assert_eq!(xo.source_pin, 1);
            // In jacks have no source pin.
            assert!(port.embedded_in.source.is_none());
            assert!(port.external_in.source.is_none());
        }
    }
}

#[test]
fn topology_is_idempotent() {
    for n in 1..=8usize {
        assert_eq!(topology(n), topology(n));
    }
}
