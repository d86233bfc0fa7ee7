//! The transport-loop state machine.
//!
//! The loop owns the two bulk endpoints and runs forever: it waits for the
//! host to enable the OUT endpoint, then repeatedly reads one buffer,
//! decodes it in fixed 4-byte strides, and optionally writes one packet
//! back. The decisions live here as a pure step function from state and
//! endpoint outcome to next state and next action; the surrounding
//! execution context performs the endpoint operations themselves and feeds
//! their outcomes back. Any endpoint error while connected returns the
//! loop to `Disconnected`, dropping in-flight data; errors never propagate
//! past the loop.

use vstd::prelude::*;
use vstd::slice::slice_subrange;
use crate::event::{spec_cable, spec_decode, Event, cable_number};

verus! {

/// The two states of the transport loop.
#[derive(Clone, Copy, Debug, PartialEq, Eq, Structural)]
pub enum LinkState {
    Disconnected,
    Connected,
}

/// The outcome of one endpoint operation, reported by the device stack.
#[derive(Clone, Copy, Debug, PartialEq, Eq, Structural)]
pub enum LinkEvent {
    /// The host enabled the bulk OUT endpoint.
    Enabled,
    /// A bulk read completed and delivered data.
    ReadOk,
    /// A bulk read failed (endpoint disabled or stalled).
    ReadFailed,
    /// A bulk write was accepted.
    WriteOk,
    /// A bulk write failed (endpoint disabled or stalled).
    WriteFailed,
}

/// What the loop must do next.
#[derive(Clone, Copy, Debug, PartialEq, Eq, Structural)]
pub enum LinkAction {
    /// Suspend until the host enables the endpoint.
    AwaitConnection,
    /// Read the next buffer of packets (and optionally write one).
    ReadPackets,
}

/// The transition relation of the loop: connect on `Enabled`, fall back to
/// `Disconnected` on any endpoint error while connected, keep reading
/// otherwise.
pub open spec fn spec_step(s: LinkState, e: LinkEvent) -> (LinkState, LinkAction) {
    match s {
        LinkState::Disconnected => match e {
            LinkEvent::Enabled => (LinkState::Connected, LinkAction::ReadPackets),
            _ => (LinkState::Disconnected, LinkAction::AwaitConnection),
        },
        LinkState::Connected => match e {
            LinkEvent::ReadFailed => (LinkState::Disconnected, LinkAction::AwaitConnection),
            LinkEvent::WriteFailed => (LinkState::Disconnected, LinkAction::AwaitConnection),
            _ => (LinkState::Connected, LinkAction::ReadPackets),
        },
    }
}

/// Advances the transport loop by one observed endpoint outcome. Total:
/// every state/outcome pair has a successor, so no outcome can escape the
/// loop as an error.
pub fn step(s: LinkState, e: LinkEvent) -> (r: (LinkState, LinkAction))
    ensures
        r == spec_step(s, e),
{
    match s {
        LinkState::Disconnected => match e {
            LinkEvent::Enabled => (LinkState::Connected, LinkAction::ReadPackets),
            _ => (LinkState::Disconnected, LinkAction::AwaitConnection),
        },
        LinkState::Connected => match e {
            LinkEvent::ReadFailed => (LinkState::Disconnected, LinkAction::AwaitConnection),
            LinkEvent::WriteFailed => (LinkState::Disconnected, LinkAction::AwaitConnection),
            _ => (LinkState::Connected, LinkAction::ReadPackets),
        },
    }
}

/// Decodes a read buffer of `cnt` bytes in fixed 4-byte strides: stride `k`
/// yields its cable number and event. Trailing bytes short of a full
/// stride are dropped.
pub fn process_packets(buf: &[u8], cnt: usize) -> (r: Vec<(u8, Event)>)
    requires
        cnt <= buf@.len(),
    ensures
        r@.len() == cnt as int / 4,
        forall|k: int| 0 <= k < r@.len() ==> r@[k] == (
            spec_cable(buf@[4 * k]),
            spec_decode(buf@[4 * k], buf@[4 * k + 1], buf@[4 * k + 2], buf@[4 * k + 3]),
        ),
{
    let mut r: Vec<(u8, Event)> = Vec::new();
    let mut off: usize = 0;
    while cnt - off >= 4
        invariant
            cnt <= buf@.len(),
            off % 4 == 0,
            off <= cnt,
            r@.len() == off as int / 4,
            forall|k: int| 0 <= k < r@.len() ==> r@[k] == (
                spec_cable(buf@[4 * k]),
                spec_decode(buf@[4 * k], buf@[4 * k + 1], buf@[4 * k + 2], buf@[4 * k + 3]),
            ),
        decreases cnt - off,
    {
        let stride = slice_subrange(buf, off, off + 4);
        let cable = cable_number(stride[0]);
        let event = Event::new(stride);
        r.push((cable, event));
        off += 4;
    }
    r
}

} // verus!
