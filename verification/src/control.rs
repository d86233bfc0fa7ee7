//! String-request handling for the MIDIStreaming interface.
//!
//! The device stack forwards `get_string(index, language)` control requests
//! here; the answer is the display name of the port whose string-index slot
//! matches. Two handlers exist: `Handler` with a fixed table keyed by
//! absolute index, and `Control`, whose table starts at the string-index
//! slot allocated for the first port. `State` is the write-once cell that
//! owns a `Control` for the lifetime of the device object.

use vstd::prelude::*;

verus! {

/// A string-request handler with a fixed table at absolute indices 1..=8.
pub struct Handler {}

/// The display name `Handler` answers for string index `index`.
pub open spec fn spec_handler_name(index: u8) -> Seq<char> {
    if index == 1 { "Eins"@ }
    else if index == 2 { "Zwei"@ }
    else if index == 3 { "Drei"@ }
    else if index == 4 { "Vier"@ }
    else if index == 5 { "Fünf"@ }
    else if index == 6 { "Sechs"@ }
    else if index == 7 { "Sieben"@ }
    else { "Acht"@ }
}

impl Handler {
    /// Creates the handler. It holds no state: the table is fixed.
    pub fn new() -> (h: Handler) {
        Handler {}
    }

    /// Answers a string request: a name for indices 1..=8 in any language,
    /// nothing otherwise.
    pub fn get_string(&self, index: u8, _lang_id: u16) -> (r: Option<&'static str>)
        ensures
            r is Some <==> 1 <= index <= 8,
            r matches Some(name) ==> name@ == spec_handler_name(index),
    {
        match index {
            1 => Some("Eins"),
            2 => Some("Zwei"),
            3 => Some("Drei"),
            4 => Some("Vier"),
            5 => Some("Fünf"),
            6 => Some("Sechs"),
            7 => Some("Sieben"),
            8 => Some("Acht"),
            _ => None,
        }
    }
}

/// A string-request handler whose eight-entry table starts at the
/// string-index slot allocated for the first port.
#[derive(Clone, Copy, Debug, PartialEq, Eq, Structural)]
pub struct Control {
    pub string_offset: u8,
}

/// The display name `Control` answers for the port at table position `k`
/// (0-based).
pub open spec fn spec_port_name(k: int) -> Seq<char> {
    if k == 0 { "Port 1"@ }
    else if k == 1 { "Port 2"@ }
    else if k == 2 { "Port 3"@ }
    else if k == 3 { "Port 4"@ }
    else if k == 4 { "Port 5"@ }
    else if k == 5 { "Port 6"@ }
    else if k == 6 { "Port 7"@ }
    else { "Port 8"@ }
}

impl Control {
    /// Answers a string request: the port name for the eight slots starting
    /// at `string_offset`, nothing for any other index.
    pub fn get_string(&self, index: u8, _lang_id: u16) -> (r: Option<&'static str>)
        ensures
            r is Some <==> self.string_offset <= index && index as int
                <= self.string_offset as int + 7,
            r matches Some(name) ==> name@ == spec_port_name(index - self.string_offset),
    {
        if index >= self.string_offset {
            match index - self.string_offset {
                0 => Some("Port 1"),
                1 => Some("Port 2"),
                2 => Some("Port 3"),
                3 => Some("Port 4"),
                4 => Some("Port 5"),
                5 => Some("Port 6"),
                6 => Some("Port 7"),
                7 => Some("Port 8"),
                _ => None,
            }
        } else {
            None
        }
    }
}

/// The write-once cell a `Control` lives in: empty until device build time,
/// initialized exactly once, immutable afterwards.
pub struct State {
    pub control: Option<Control>,
}

impl State {
    /// Creates the cell, not yet initialized.
    pub fn new() -> (s: State)
        ensures
            s.control is None,
    {
        State { control: None }
    }

    /// Writes the handler into the cell. Write-once: the cell must still be
    /// empty.
    pub fn init_control(&mut self, string_offset: u8)
        requires
            old(self).control is None,
        ensures
            final(self).control == Some(Control { string_offset }),
    {
        self.control = Some(Control { string_offset });
    }
}

} // verus!
