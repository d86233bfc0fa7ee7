//! The class-specific descriptor synthesizer.
//!
//! From a port count `n` (1..=8) and a contiguous string-index allocation it
//! emits, in order: the AudioControl class header, the MIDIStreaming class
//! header whose 16-bit total-length field covers the whole class block, four
//! jack descriptors per port, and the two bulk-endpoint jack associations.
//! The length field is structural: `lemma_declared_length_matches_bytes`
//! proves it equal to the byte count of the emitted records, so a mismatch
//! (a silent host-enumeration defect) cannot arise at runtime.

use vstd::prelude::*;
use vstd::arithmetic::div_mod::lemma_fundamental_div_mod;
use crate::topology::{
    embedded_in_id, embedded_out_id, external_in_id, external_out_id, spec_port,
    spec_topology, topology, MAX_PORT_COUNT,
};

verus! {

pub const USB_CLASS_AUDIO: u8 = 0x01;
pub const AUDIO_SUBCLASS_AUDIOCONTROL: u8 = 0x01;
pub const AUDIO_SUBCLASS_MIDISTREAMING: u8 = 0x03;
pub const AUDIO_PROTOCOL_UNDEFINED: u8 = 0x00;

pub const CS_INTERFACE: u8 = 0x24;
pub const CS_ENDPOINT: u8 = 0x25;

pub const HEADER: u8 = 0x01;
pub const MS_HEADER: u8 = 0x01;
pub const MIDI_IN_JACK: u8 = 0x02;
pub const MIDI_OUT_JACK: u8 = 0x03;
pub const MS_GENERAL: u8 = 0x01;

pub const JACK_TYPE_EMBEDDED: u8 = 0x01;
pub const JACK_TYPE_EXTERNAL: u8 = 0x02;

/// Maximum packet size of the two bulk endpoints, in bytes.
pub const MAX_PACKET_SIZE: u16 = 64;

/// One class-specific descriptor record. On the wire it is prefixed by the
/// 2-byte `bLength`/`bDescriptorType` pair, so its wire length is
/// `2 + payload.len()`.
#[derive(Clone, Debug, PartialEq, Eq)]
pub struct DescriptorRecord {
    pub record_type: u8,
    pub payload: Vec<u8>,
}

/// Which bulk endpoint a jack association belongs to.
#[derive(Clone, Copy, Debug, PartialEq, Eq, Structural)]
pub enum EndpointDirection {
    BulkOut,
    BulkIn,
}

/// The class-specific endpoint descriptor content: the ordered list of
/// embedded jack ids an endpoint carries data for. The bulk OUT endpoint
/// lists all embedded In jacks (host-to-device), the bulk IN endpoint all
/// embedded Out jacks (device-to-host).
#[derive(Clone, Debug, PartialEq, Eq)]
pub struct EndpointJackAssociation {
    pub direction: EndpointDirection,
    pub embedded_jack_ids: Vec<u8>,
}

/// The finished, immutable descriptor configuration for one USB-MIDI
/// function: built once at device-build time, read-only afterwards.
#[derive(Clone, Debug, PartialEq, Eq)]
pub struct ClassDescriptorBlock {
    pub num_ports: usize,
    pub string_base: u8,
    pub ac_header: DescriptorRecord,
    pub ms_records: Vec<DescriptorRecord>,
    pub out_association: EndpointJackAssociation,
    pub in_association: EndpointJackAssociation,
}

/// Payload of the AudioControl class header: revision 1.0, total size 9,
/// one streaming interface, which is MS interface 1.
pub open spec fn ac_header_payload() -> Seq<u8> {
    seq![HEADER, 0x00u8, 0x01u8, 0x09u8, 0x00u8, 0x01u8, 0x01u8]
}

/// The MS header's total class-descriptor length for `n` ports: one 7-byte
/// MS header, per port two 6-byte In-jack and two 9-byte Out-jack
/// descriptors, and per endpoint a 9-byte standard descriptor plus a
/// `4 + n`-byte class-specific one (all lengths as on the wire).
pub open spec fn total_cs_length(n: int) -> int {
    7 + n * (6 + 6 + 9 + 9) + 9 + (4 + n) + 9 + (4 + n)
}

/// Payload of the MIDIStreaming class header: revision 1.0 and the
/// little-endian total length.
pub open spec fn ms_header_payload(n: int) -> Seq<u8> {
    seq![
        MS_HEADER,
        0x00u8,
        0x01u8,
        (total_cs_length(n) % 256) as u8,
        (total_cs_length(n) / 256) as u8,
    ]
}

/// Payload of the embedded In-jack descriptor of port `i` with string
/// index `s + i` as its display name.
pub open spec fn embedded_in_jack_payload(i: int, s: int) -> Seq<u8> {
    seq![MIDI_IN_JACK, JACK_TYPE_EMBEDDED, embedded_in_id(i) as u8, (s + i) as u8]
}

/// Payload of the external In-jack descriptor of port `i` (no name).
pub open spec fn external_in_jack_payload(i: int) -> Seq<u8> {
    seq![MIDI_IN_JACK, JACK_TYPE_EXTERNAL, external_in_id(i) as u8, 0x00u8]
}

/// Payload of the embedded Out-jack descriptor of port `i`: one input pin,
/// sourced from the external In jack of the same port.
pub open spec fn embedded_out_jack_payload(i: int, s: int) -> Seq<u8> {
    seq![
        MIDI_OUT_JACK,
        JACK_TYPE_EMBEDDED,
        embedded_out_id(i) as u8,
        0x01u8,
        external_in_id(i) as u8,
        0x01u8,
        (s + i) as u8,
    ]
}

/// Payload of the external Out-jack descriptor of port `i`: one input pin,
/// sourced from the embedded In jack of the same port.
pub open spec fn external_out_jack_payload(i: int) -> Seq<u8> {
    seq![
        MIDI_OUT_JACK,
        JACK_TYPE_EXTERNAL,
        external_out_id(i) as u8,
        0x01u8,
        embedded_in_id(i) as u8,
        0x01u8,
        0x00u8,
    ]
}

/// The jack ids the bulk OUT endpoint is associated with: every embedded
/// In jack, in port order.
pub open spec fn out_association_ids(n: int) -> Seq<u8> {
    Seq::new(n as nat, |i: int| embedded_in_id(i) as u8)
}

/// The jack ids the bulk IN endpoint is associated with: every embedded
/// Out jack, in port order.
pub open spec fn in_association_ids(n: int) -> Seq<u8> {
    Seq::new(n as nat, |i: int| embedded_out_id(i) as u8)
}

/// Payload of a class-specific bulk endpoint descriptor: the `MS_GENERAL`
/// format tag, the jack count, then the jack ids.
pub open spec fn spec_cs_endpoint_payload(ids: Seq<u8>) -> Seq<u8> {
    seq![MS_GENERAL, ids.len() as u8] + ids
}

/// A record has the given type byte and payload bytes.
pub open spec fn record_is(r: DescriptorRecord, t: u8, payload: Seq<u8>) -> bool {
    r.record_type == t && r.payload@ == payload
}

/// The four jack records of port `i` stand at positions `4i+1 ..= 4i+4` of
/// the MS record list, in the order embedded-In, external-In, embedded-Out,
/// external-Out.
pub open spec fn port_jack_records_ok(rs: Seq<DescriptorRecord>, i: int, s: int) -> bool {
    &&& record_is(rs[4 * i + 1], CS_INTERFACE, embedded_in_jack_payload(i, s))
    &&& record_is(rs[4 * i + 2], CS_INTERFACE, external_in_jack_payload(i))
    &&& record_is(rs[4 * i + 3], CS_INTERFACE, embedded_out_jack_payload(i, s))
    &&& record_is(rs[4 * i + 4], CS_INTERFACE, external_out_jack_payload(i))
}

impl ClassDescriptorBlock {
    /// The block holds exactly the records the synthesizer owes for `n`
    /// ports with string indices `s .. s + n`.
    pub open spec fn matches(self, n: int, s: int) -> bool {
        &&& self.num_ports as int == n
        &&& self.string_base as int == s
        &&& record_is(self.ac_header, CS_INTERFACE, ac_header_payload())
        &&& self.ms_records@.len() == 4 * n + 1
        &&& record_is(self.ms_records@[0], CS_INTERFACE, ms_header_payload(n))
        &&& forall|i: int| 0 <= i < n ==> #[trigger] port_jack_records_ok(self.ms_records@, i, s)
        &&& self.out_association.direction == EndpointDirection::BulkOut
        &&& self.out_association.embedded_jack_ids@ == out_association_ids(n)
        &&& self.in_association.direction == EndpointDirection::BulkIn
        &&& self.in_association.embedded_jack_ids@ == in_association_ids(n)
    }

    /// Well-formed: a block built for its own stored port count and string
    /// base, within the construction-time bounds.
    pub open spec fn wf(self) -> bool {
        &&& 1 <= self.num_ports <= MAX_PORT_COUNT
        &&& self.string_base as int + self.num_ports as int <= 256
        &&& self.matches(self.num_ports as int, self.string_base as int)
    }
}

/// Builds an In-jack descriptor record.
fn in_jack_record(kind: u8, id: u8, ijack: u8) -> (r: DescriptorRecord)
    ensures
        record_is(r, CS_INTERFACE, seq![MIDI_IN_JACK, kind, id, ijack]),
{
    let mut payload: Vec<u8> = Vec::new();
    payload.push(MIDI_IN_JACK);
    payload.push(kind);
    payload.push(id);
    payload.push(ijack);
    proof {
        assert(payload@ =~= seq![MIDI_IN_JACK, kind, id, ijack]);
    }
    DescriptorRecord { record_type: CS_INTERFACE, payload }
}

/// Builds an Out-jack descriptor record with its single source pin.
fn out_jack_record(kind: u8, id: u8, source_id: u8, ijack: u8) -> (r: DescriptorRecord)
    ensures
        record_is(r, CS_INTERFACE, seq![MIDI_OUT_JACK, kind, id, 0x01u8, source_id, 0x01u8, ijack]),
{
    let mut payload: Vec<u8> = Vec::new();
    payload.push(MIDI_OUT_JACK);
    payload.push(kind);
    payload.push(id);
    payload.push(0x01);
    payload.push(source_id);
    payload.push(0x01);
    payload.push(ijack);
    proof {
        assert(payload@ =~= seq![MIDI_OUT_JACK, kind, id, 0x01u8, source_id, 0x01u8, ijack]);
    }
    DescriptorRecord { record_type: CS_INTERFACE, payload }
}

/// Builds the MIDIStreaming class header with the computed total length.
fn ms_header_record(n: usize) -> (r: DescriptorRecord)
    requires
        1 <= n <= MAX_PORT_COUNT,
    ensures
        record_is(r, CS_INTERFACE, ms_header_payload(n as int)),
{
    // 7-byte MS header, 6 + 6 + 9 + 9 bytes of jack descriptors per port,
    // and per endpoint a 9-byte standard and a (4 + n)-byte class-specific
    // descriptor.
    let total: u16 = 7 + (n as u16) * 30 + 9 + (4 + (n as u16)) + 9 + (4 + (n as u16));
    let mut payload: Vec<u8> = Vec::new();
    payload.push(MS_HEADER);
    payload.push(0x00);
    payload.push(0x01);
    payload.push((total % 256) as u8);
    payload.push((total / 256) as u8);
    proof {
        assert(total as int == total_cs_length(n as int));
        assert(payload@ =~= ms_header_payload(n as int));
    }
    DescriptorRecord { record_type: CS_INTERFACE, payload }
}

impl ClassDescriptorBlock {
    /// Synthesizes the full class block for `n` ports whose port-name string
    /// indices are `string_base .. string_base + n`. Runs once at device
    /// build time; the result is immutable afterwards.
    pub fn new(n: usize, string_base: u8) -> (c: ClassDescriptorBlock)
        requires
            1 <= n <= MAX_PORT_COUNT,
            string_base as int + n as int <= 256,
        ensures
            c.matches(n as int, string_base as int),
            c.wf(),
    {
        let ghost s = string_base as int;

        let mut ac_payload: Vec<u8> = Vec::new();
        ac_payload.push(HEADER);
        ac_payload.push(0x00);
        ac_payload.push(0x01);
        ac_payload.push(0x09);
        ac_payload.push(0x00);
        ac_payload.push(0x01);
        ac_payload.push(0x01);
        proof {
            assert(ac_payload@ =~= ac_header_payload());
        }
        let ac_header = DescriptorRecord { record_type: CS_INTERFACE, payload: ac_payload };

        let ports = topology(n);

        let mut ms_records: Vec<DescriptorRecord> = Vec::new();
        ms_records.push(ms_header_record(n));

        let mut out_ids: Vec<u8> = Vec::new();
        let mut in_ids: Vec<u8> = Vec::new();

        for i in 0..n
            invariant
                1 <= n <= MAX_PORT_COUNT,
                string_base as int + n as int <= 256,
                s == string_base as int,
                ports@ == spec_topology(n as int),
                ms_records@.len() == 4 * i + 1,
                record_is(ms_records@[0], CS_INTERFACE, ms_header_payload(n as int)),
                forall|j: int| 0 <= j < i ==> #[trigger] port_jack_records_ok(ms_records@, j, s),
                out_ids@ == out_association_ids(i as int),
                in_ids@ == in_association_ids(i as int),
        {
            let port = ports[i];
            proof {
                assert(port == spec_port(i as int));
            }
            let name_index = string_base + (i as u8);

            let embedded_out_source = match port.embedded_out.source {
                Some(src) => src.source_jack_id,
                None => 0,
            };
            let external_out_source = match port.external_out.source {
                Some(src) => src.source_jack_id,
                None => 0,
            };

            let ghost ms0 = ms_records@;
            let rec_embedded_in = in_jack_record(JACK_TYPE_EMBEDDED, port.embedded_in.id, name_index);
            let rec_external_in = in_jack_record(JACK_TYPE_EXTERNAL, port.external_in.id, 0x00);
            let rec_embedded_out =
                out_jack_record(JACK_TYPE_EMBEDDED, port.embedded_out.id, embedded_out_source, name_index);
            let rec_external_out =
                out_jack_record(JACK_TYPE_EXTERNAL, port.external_out.id, external_out_source, 0x00);
            ms_records.push(rec_embedded_in);
            ms_records.push(rec_external_in);
            ms_records.push(rec_embedded_out);
            ms_records.push(rec_external_out);
            out_ids.push(port.embedded_in.id);
            in_ids.push(port.embedded_out.id);

            proof {
                let v = i as int;
                assert(ms_records@ =~= ms0 + seq![
                    rec_embedded_in,
                    rec_external_in,
                    rec_embedded_out,
                    rec_external_out,
                ]);
                assert(rec_embedded_in.payload@ =~= embedded_in_jack_payload(v, s));
                assert(rec_external_in.payload@ =~= external_in_jack_payload(v));
                assert(rec_embedded_out.payload@ =~= embedded_out_jack_payload(v, s));
                assert(rec_external_out.payload@ =~= external_out_jack_payload(v));
                assert forall|j: int| 0 <= j < v + 1 implies #[trigger] port_jack_records_ok(
                    ms_records@,
                    j,
                    s,
                ) by {
                    if j < v {
                        assert(port_jack_records_ok(ms0, j, s));
                        assert(ms_records@[4 * j + 1] == ms0[4 * j + 1]);
                        assert(ms_records@[4 * j + 2] == ms0[4 * j + 2]);
                        assert(ms_records@[4 * j + 3] == ms0[4 * j + 3]);
                        assert(ms_records@[4 * j + 4] == ms0[4 * j + 4]);
                    } else {
                        assert(ms_records@[4 * j + 1] == rec_embedded_in);
                        assert(ms_records@[4 * j + 2] == rec_external_in);
                        assert(ms_records@[4 * j + 3] == rec_embedded_out);
                        assert(ms_records@[4 * j + 4] == rec_external_out);
                    }
                };
                assert(out_ids@ =~= out_association_ids(v + 1));
                assert(in_ids@ =~= in_association_ids(v + 1));
            }
        }

        ClassDescriptorBlock {
            num_ports: n,
            string_base,
            ac_header,
            ms_records,
            out_association: EndpointJackAssociation {
                direction: EndpointDirection::BulkOut,
                embedded_jack_ids: out_ids,
            },
            in_association: EndpointJackAssociation {
                direction: EndpointDirection::BulkIn,
                embedded_jack_ids: in_ids,
            },
        }
    }

    /// Checked construction: rejects out-of-range configurations instead of
    /// treating them as programming errors. Returns a block exactly when
    /// the port count is in 1..=8 and the string indices fit in one byte.
    pub fn try_new(n: usize, string_base: u8) -> (r: Option<ClassDescriptorBlock>)
        ensures
            r is Some <==> (1 <= n <= MAX_PORT_COUNT && string_base as int + n as int <= 256),
            r matches Some(c) ==> c.matches(n as int, string_base as int) && c.wf(),
    {
        if 1 <= n && n <= MAX_PORT_COUNT && n <= 256 - (string_base as usize) {
            Some(ClassDescriptorBlock::new(n, string_base))
        } else {
            None
        }
    }

    /// The cable identifiers of a two-port configuration.
    pub fn split_cables(&self) -> (r: (u8, u8))
        requires
            self.num_ports == 2,
        ensures
            r == (1u8, 2u8),
    {
        (1, 2)
    }
}

impl EndpointJackAssociation {
    /// Serializes the association as the payload of its class-specific
    /// endpoint descriptor: `[MS_GENERAL, count, id...]`.
    pub fn cs_endpoint_payload(&self) -> (p: Vec<u8>)
        requires
            self.embedded_jack_ids@.len() <= 255,
        ensures
            p@ == spec_cs_endpoint_payload(self.embedded_jack_ids@),
    {
        let mut p: Vec<u8> = Vec::new();
        p.push(MS_GENERAL);
        p.push(self.embedded_jack_ids.len() as u8);
        let mut k: usize = 0;
        while k < self.embedded_jack_ids.len()
            invariant
                k <= self.embedded_jack_ids@.len() <= 255,
                p@.len() == 2 + k,
                p@[0] == MS_GENERAL,
                p@[1] == self.embedded_jack_ids@.len() as u8,
                forall|j: int| 0 <= j < k ==> p@[2 + j] == self.embedded_jack_ids@[j],
            decreases self.embedded_jack_ids@.len() - k,
        {
            p.push(self.embedded_jack_ids[k]);
            k += 1;
        }
        proof {
            assert(p@ =~= spec_cs_endpoint_payload(self.embedded_jack_ids@));
        }
        p
    }
}

/// Wire length of one record: the 2-byte descriptor prefix plus the payload.
pub open spec fn record_wire_len(r: DescriptorRecord) -> int {
    2 + r.payload@.len() as int
}

/// Total wire length of a list of records.
pub open spec fn records_wire_len(rs: Seq<DescriptorRecord>) -> int
    decreases rs.len(),
{
    if rs.len() == 0 {
        0
    } else {
        records_wire_len(rs.drop_last()) + record_wire_len(rs.last())
    }
}

/// Wire length of one endpoint's descriptor pair: the 9-byte standard bulk
/// endpoint descriptor plus the class-specific record (2-byte prefix and
/// `MS_GENERAL`, count, ids payload).
pub open spec fn endpoint_block_wire_len(a: EndpointJackAssociation) -> int {
    9 + 2 + spec_cs_endpoint_payload(a.embedded_jack_ids@).len() as int
}

/// The total length the MS header declares, read back from its
/// little-endian length field.
pub open spec fn declared_total_length(c: ClassDescriptorBlock) -> int {
    c.ms_records@[0].payload@[3] + 256 * c.ms_records@[0].payload@[4]
}

/// Byte count of the whole emitted MS class block: every CS_INTERFACE
/// record (MS header and jack descriptors) plus both endpoint blocks.
pub open spec fn ms_block_wire_len(c: ClassDescriptorBlock) -> int {
    records_wire_len(c.ms_records@) + endpoint_block_wire_len(c.out_association)
        + endpoint_block_wire_len(c.in_association)
}

/// The first `4k + 1` MS records (header plus `k` complete ports) occupy
/// `7 + 30k` wire bytes.
proof fn lemma_ms_prefix_wire_len(rs: Seq<DescriptorRecord>, k: int, n: int, s: int)
    requires
        0 <= k <= n,
        rs.len() == 4 * n + 1,
        record_is(rs[0], CS_INTERFACE, ms_header_payload(n)),
        forall|j: int| 0 <= j < n ==> #[trigger] port_jack_records_ok(rs, j, s),
    ensures
        records_wire_len(rs.take(4 * k + 1)) == 7 + 30 * k,
    decreases k,
{
    if k == 0 {
        let t = rs.take(1);
        assert(t.drop_last() =~= rs.take(0));
        assert(records_wire_len(rs.take(0)) == 0);
        assert(t.last() == rs[0]);
        assert(ms_header_payload(n).len() == 5);
        assert(records_wire_len(t) == records_wire_len(t.drop_last()) + record_wire_len(t.last()));
        assert(records_wire_len(rs.take(1)) == 7);
    } else {
        lemma_ms_prefix_wire_len(rs, k - 1, n, s);
        let t4 = rs.take(4 * k + 1);
        let t3 = rs.take(4 * k);
        let t2 = rs.take(4 * k - 1);
        let t1 = rs.take(4 * k - 2);
        let t0 = rs.take(4 * k - 3);
        assert(records_wire_len(t0) == 7 + 30 * (k - 1));
        assert(port_jack_records_ok(rs, k - 1, s));
        assert(embedded_in_jack_payload(k - 1, s).len() == 4);
        assert(external_in_jack_payload(k - 1).len() == 4);
        assert(embedded_out_jack_payload(k - 1, s).len() == 7);
        assert(external_out_jack_payload(k - 1).len() == 7);

        assert(t1.drop_last() =~= t0);
        assert(t1.last() == rs[4 * (k - 1) + 1]);
        assert(records_wire_len(t1) == records_wire_len(t0) + record_wire_len(rs[4 * (k - 1) + 1]));

        assert(t2.drop_last() =~= t1);
        assert(t2.last() == rs[4 * (k - 1) + 2]);
        assert(records_wire_len(t2) == records_wire_len(t1) + record_wire_len(rs[4 * (k - 1) + 2]));

        assert(t3.drop_last() =~= t2);
        assert(t3.last() == rs[4 * (k - 1) + 3]);
        assert(records_wire_len(t3) == records_wire_len(t2) + record_wire_len(rs[4 * (k - 1) + 3]));

        assert(t4.drop_last() =~= t3);
        assert(t4.last() == rs[4 * (k - 1) + 4]);
        assert(records_wire_len(t4) == records_wire_len(t3) + record_wire_len(rs[4 * (k - 1) + 4]));

        assert(records_wire_len(t4) == 7 + 30 * k);
    }
}

/// The load-bearing descriptor invariant: for every well-formed block the
/// MS header's declared total length equals the exact byte count of the
/// emitted class block.
pub proof fn lemma_declared_length_matches_bytes(c: ClassDescriptorBlock)
    requires
        c.wf(),
    ensures
        declared_total_length(c) == ms_block_wire_len(c),
        declared_total_length(c) == total_cs_length(c.num_ports as int),
{
    let n = c.num_ports as int;
    let s = c.string_base as int;
    lemma_ms_prefix_wire_len(c.ms_records@, n, n, s);
    assert(c.ms_records@.take(4 * n + 1) =~= c.ms_records@);
    let total = total_cs_length(n);
    lemma_fundamental_div_mod(total, 256);
    assert(declared_total_length(c) == total);
    assert(out_association_ids(n).len() == n);
    assert(in_association_ids(n).len() == n);
}

} // verus!
