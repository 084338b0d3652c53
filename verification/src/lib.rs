//! The wireless link layer of a battery-powered sensor node: a
//! register-level radio driver, an IEEE 802.15.4 MAC frame engine with an
//! association handshake, and a Zigbee network-layer packet codec. All of
//! it is synchronous: the driver polls hardware state directly, under a
//! poll budget, and nothing retries beyond the fixed attempt bound of the
//! acknowledgement wait.

use vstd::prelude::*;

pub mod ieee802154;
pub mod mac;
pub mod network_layer;
pub mod radio_driver;
pub mod registers;
pub mod wire;

verus! {

/// All the hardware-specific operations a platform provides to this
/// stack.
pub trait ZigbeeHardware {
    /// Connects and sets up the radio hardware; true on success.
    fn connect(&self) -> bool;
}

/// Initializes the Zigbee stack for specific hardware.
pub fn initialize_zigbee_stack<T: ZigbeeHardware>(hardware: &T) -> bool {
    hardware.connect()
}

/// The stack bound to the radio peripheral of its target platform, whose
/// radio is always present.
pub struct NRF52840ZigbeeHardware {}

impl NRF52840ZigbeeHardware {
    pub fn new() -> (r: NRF52840ZigbeeHardware) {
        NRF52840ZigbeeHardware {  }
    }
}

impl ZigbeeHardware for NRF52840ZigbeeHardware {
    fn connect(&self) -> bool {
        true
    }
}

/// Joins the two halves of the factory device-identity register into the
/// 64-bit long address of this device.
pub fn combine_device_id(high: u32, low: u32) -> (id: u64)
    ensures
        id == ((high as u64) << 32) | (low as u64),
{
    ((high as u64) << 32) | (low as u64)
}

} // verus!
