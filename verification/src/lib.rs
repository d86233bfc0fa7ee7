//! USB Audio/MIDI class device core: jack topology, class-specific
//! descriptor synthesis, the 4-byte USB-MIDI event codec, and the
//! transport-loop state machine that binds the codec to bulk endpoints.

pub mod control;
pub mod descriptor;
pub mod device;
pub mod event;
pub mod topology;
pub mod transport;
