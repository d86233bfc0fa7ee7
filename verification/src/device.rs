//! Build-time buffer ownership for the device stack.
//!
//! The generic USB device engine borrows these buffers for the lifetime of
//! the device object: descriptor tables are synthesized into them once at
//! build time and are immutable afterwards. They start zeroed.

use vstd::prelude::*;
use crate::control::State;

verus! {

/// The raw descriptor and transfer buffers the device stack writes into.
pub struct UsbBuffers {
    pub device_descriptor: [u8; 256],
    pub config_descriptor: [u8; 256],
    pub bos_descriptor: [u8; 64],
    pub control_buf: [u8; 64],
    pub ep_out_buffer: [u8; 256],
}

impl UsbBuffers {
    /// Allocates the buffers, all zeroed.
    pub fn new() -> (b: UsbBuffers)
        ensures
            forall|i: int| 0 <= i < 256 ==> b.device_descriptor@[i] == 0,
            forall|i: int| 0 <= i < 256 ==> b.config_descriptor@[i] == 0,
            forall|i: int| 0 <= i < 64 ==> b.bos_descriptor@[i] == 0,
            forall|i: int| 0 <= i < 64 ==> b.control_buf@[i] == 0,
            forall|i: int| 0 <= i < 256 ==> b.ep_out_buffer@[i] == 0,
    {
        let device_descriptor = [0u8; 256];
        let config_descriptor = [0u8; 256];
        let bos_descriptor = [0u8; 64];
        let control_buf = [0u8; 64];
        let ep_out_buffer = [0u8; 256];

        UsbBuffers {
            device_descriptor,
            config_descriptor,
            bos_descriptor,
            control_buf,
            ep_out_buffer,
        }
    }
}

/// Everything the device build step owns: the raw buffers plus the
/// write-once cell for the string-request handler.
pub struct UsbDeviceBuilder {
    pub device_descriptor: [u8; 256],
    pub config_descriptor: [u8; 256],
    pub bos_descriptor: [u8; 64],
    pub control_buf: [u8; 64],
    pub ep_out_buffer: [u8; 256],
    pub state: State,
}

impl UsbDeviceBuilder {
    /// Allocates zeroed buffers and an empty handler cell.
    pub fn new() -> (b: UsbDeviceBuilder)
        ensures
            forall|i: int| 0 <= i < 256 ==> b.device_descriptor@[i] == 0,
            forall|i: int| 0 <= i < 256 ==> b.config_descriptor@[i] == 0,
            forall|i: int| 0 <= i < 64 ==> b.bos_descriptor@[i] == 0,
            forall|i: int| 0 <= i < 64 ==> b.control_buf@[i] == 0,
            forall|i: int| 0 <= i < 256 ==> b.ep_out_buffer@[i] == 0,
            b.state.control is None,
    {
        let device_descriptor = [0u8; 256];
        let config_descriptor = [0u8; 256];
        let bos_descriptor = [0u8; 64];
        let control_buf = [0u8; 64];
        let ep_out_buffer = [0u8; 256];

        UsbDeviceBuilder {
            device_descriptor,
            config_descriptor,
            bos_descriptor,
            control_buf,
            ep_out_buffer,
            state: State::new(),
        }
    }
}

} // verus!
