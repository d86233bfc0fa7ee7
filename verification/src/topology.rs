//! The jack topology model: per logical port, the four jack identities and
//! their wiring, derived deterministically from the port index.
//!
//! Port `i` (0-based) owns jacks `embedded_in = 4i+1`, `external_in = 4i+2`,
//! `embedded_out = 4i+3`, `external_out = 4i+4`. Each Out jack has exactly
//! one source pin, and the wiring is crossed: the embedded Out jack sources
//! from the external In jack and the external Out jack from the embedded In
//! jack, so the host sees a virtual loop-back through externals that stand
//! for a MIDI wire that never physically exists.

use vstd::prelude::*;

verus! {

/// The largest configurable port count.
pub const MAX_PORT_COUNT: usize = 8;

/// Whether a jack terminates in this device's endpoint (`Embedded`) or
/// stands for a virtual physical connector (`External`).
#[derive(Clone, Copy, Debug, PartialEq, Eq, Structural)]
pub enum JackKind {
    Embedded,
    External,
}

/// The data direction of a jack, seen from the MIDIStreaming interface.
#[derive(Clone, Copy, Debug, PartialEq, Eq, Structural)]
pub enum JackDirection {
    In,
    Out,
}

/// The single input pin of an Out jack: which jack feeds it, on which pin.
#[derive(Clone, Copy, Debug, PartialEq, Eq, Structural)]
pub struct JackSource {
    pub source_jack_id: u8,
    pub source_pin: u8,
}

/// One jack of the topology. Only Out jacks carry a source.
#[derive(Clone, Copy, Debug, PartialEq, Eq, Structural)]
pub struct Jack {
    pub id: u8,
    pub kind: JackKind,
    pub direction: JackDirection,
    pub source: Option<JackSource>,
}

/// One logical MIDI port: a virtual cable backed by four jacks.
#[derive(Clone, Copy, Debug, PartialEq, Eq, Structural)]
pub struct Port {
    pub index: u8,
    pub embedded_in: Jack,
    pub external_in: Jack,
    pub embedded_out: Jack,
    pub external_out: Jack,
}

/// Jack id of the embedded In jack of port `i`.
pub open spec fn embedded_in_id(i: int) -> int {
    4 * i + 1
}

/// Jack id of the external In jack of port `i`.
pub open spec fn external_in_id(i: int) -> int {
    4 * i + 2
}

/// Jack id of the embedded Out jack of port `i`.
pub open spec fn embedded_out_id(i: int) -> int {
    4 * i + 3
}

/// Jack id of the external Out jack of port `i`.
pub open spec fn external_out_id(i: int) -> int {
    4 * i + 4
}

/// The port model at index `i`: four jacks with crossed Out-jack wiring.
pub open spec fn spec_port(i: int) -> Port {
    Port {
        index: i as u8,
        embedded_in: Jack {
            id: embedded_in_id(i) as u8,
            kind: JackKind::Embedded,
            direction: JackDirection::In,
            source: None,
        },
        external_in: Jack {
            id: external_in_id(i) as u8,
            kind: JackKind::External,
            direction: JackDirection::In,
            source: None,
        },
        embedded_out: Jack {
            id: embedded_out_id(i) as u8,
            kind: JackKind::Embedded,
            direction: JackDirection::Out,
            source: Some(JackSource { source_jack_id: external_in_id(i) as u8, source_pin: 1 }),
        },
        external_out: Jack {
            id: external_out_id(i) as u8,
            kind: JackKind::External,
            direction: JackDirection::Out,
            source: Some(JackSource { source_jack_id: embedded_in_id(i) as u8, source_pin: 1 }),
        },
    }
}

/// The whole topology for `n` ports: port `i` at position `i`.
pub open spec fn spec_topology(n: int) -> Seq<Port> {
    Seq::new(n as nat, |i: int| spec_port(i))
}

/// Builds the jack topology for `n` ports. A pure function of `n`: the
/// result is pinned to `spec_topology(n)`, so two calls with the same `n`
/// agree on every jack id and source.
pub fn topology(n: usize) -> (r: Vec<Port>)
    requires
        1 <= n <= MAX_PORT_COUNT,
    ensures
        r@ == spec_topology(n as int),
{
    let mut ports: Vec<Port> = Vec::new();
    for i in 0..n
        invariant
            n <= MAX_PORT_COUNT,
            ports@.len() == i,
            forall|j: int| 0 <= j < i ==> ports@[j] == spec_port(j),
    {
        let base: u8 = (i as u8) * 4;
        let port = Port {
            index: i as u8,
            embedded_in: Jack {
                id: base + 1,
                kind: JackKind::Embedded,
                direction: JackDirection::In,
                source: None,
            },
            external_in: Jack {
                id: base + 2,
                kind: JackKind::External,
                direction: JackDirection::In,
                source: None,
            },
            embedded_out: Jack {
                id: base + 3,
                kind: JackKind::Embedded,
                direction: JackDirection::Out,
                source: Some(JackSource { source_jack_id: base + 2, source_pin: 1 }),
            },
            external_out: Jack {
                id: base + 4,
                kind: JackKind::External,
                direction: JackDirection::Out,
                source: Some(JackSource { source_jack_id: base + 1, source_pin: 1 }),
            },
        };
        ports.push(port);
    }
    proof {
        assert(ports@ =~= spec_topology(n as int));
    }
    ports
}

/// The crossed wiring law: in every topology, the embedded Out jack of port
/// `i` sources from the external In jack of the same port, and the external
/// Out jack sources from the embedded In jack.
pub proof fn lemma_crossed_wiring(n: int, i: int)
    requires
        0 <= i < n,
    ensures
        spec_topology(n)[i].embedded_out.source == Some(
            JackSource { source_jack_id: spec_topology(n)[i].external_in.id, source_pin: 1u8 },
        ),
        spec_topology(n)[i].external_out.source == Some(
            JackSource { source_jack_id: spec_topology(n)[i].embedded_in.id, source_pin: 1u8 },
        ),
{
}

/// Topology is a pure function of the port count: any two jack-id
/// assignments built for the same `n` are identical.
pub proof fn lemma_topology_deterministic(n: int, a: Seq<Port>, b: Seq<Port>)
    requires
        a == spec_topology(n),
        b == spec_topology(n),
    ensures
        a == b,
{
}

} // verus!
