//! The one-byte capture state sent to the device, and the fixed parameters
//! of the two vendor control requests.

use vstd::prelude::*;
use crate::speed::{Speed, spec_code, spec_from_code};

verus! {

/// Vendor control request code for writing the capture state.
pub const STATE_REQUEST: u8 = 1;

/// Vendor control request code for reading the supported speeds.
pub const SPEEDS_REQUEST: u8 = 2;

/// The capture state byte: bit 0 is the enabled flag, bits 1-2 hold the
/// two-bit speed code.
pub open spec fn spec_state_byte(enable: bool, speed: Speed) -> u8 {
    ((if enable {
        1u8
    } else {
        0u8
    }) + 2 * spec_code(speed)) as u8
}

/// The capture state written to the device to start or stop a capture.
#[derive(Copy, Clone, Debug, PartialEq, Eq, Structural)]
pub struct State(pub u8);

impl State {
    /// Pack an enabled flag and a speed into a fresh state byte.
    pub fn new(enable: bool, speed: Speed) -> (r: State)
        ensures
            r.0 == spec_state_byte(enable, speed),
            r.spec_enable() == enable,
            r.spec_speed() == speed,
    {
        let enable_bit: u8 = if enable {
            1
        } else {
            0
        };
        let byte: u8 = enable_bit + 2 * speed.code();
        State(byte)
    }

    /// The enabled flag held in bit 0.
    pub open spec fn spec_enable(self) -> bool {
        self.0 % 2 == 1
    }

    /// The speed held in the two-bit code in bits 1-2.
    pub open spec fn spec_speed(self) -> Speed {
        spec_from_code((self.0 / 2 % 4) as u8)
    }

    /// The enabled flag held in bit 0.
    pub fn enable(&self) -> (r: bool)
        ensures
            r == self.spec_enable(),
    {
        self.0 % 2 == 1
    }

    /// The speed held in the two-bit code in bits 1-2.
    pub fn speed(&self) -> (r: Speed)
        ensures
            r == self.spec_speed(),
    {
        Speed::from_code(self.0 / 2 % 4)
    }
}

/// Packing an enabled flag and a speed into a state byte and reading the
/// bit-fields back yields the same flag and speed.
pub proof fn lemma_state_byte_round_trip(enable: bool, speed: Speed)
    ensures
        State(spec_state_byte(enable, speed)).spec_enable() == enable,
        State(spec_state_byte(enable, speed)).spec_speed() == speed,
{
}

/// The fixed parameters of one vendor-class, interface-recipient control
/// request: the request code, its value field, and the interface index.
#[derive(Copy, Clone, Debug, PartialEq, Eq, Structural)]
pub struct ControlRequest {
    pub request: u8,
    pub value: u16,
    pub index: u16,
}

/// The control-in request that reads the supported speeds byte from the
/// given interface.
pub fn speeds_request(interface_number: u8) -> (r: ControlRequest)
    ensures
        r.request == SPEEDS_REQUEST,
        r.value == 0,
        r.index == interface_number as u16,
{
    ControlRequest { request: SPEEDS_REQUEST, value: 0, index: interface_number as u16 }
}

/// The control-out request that writes a capture state byte to the given
/// interface; the state byte travels in the value field, with no payload.
pub fn state_request(interface_number: u8, state: State) -> (r: ControlRequest)
    ensures
        r.request == STATE_REQUEST,
        r.value == state.0 as u16,
        r.index == interface_number as u16,
{
    ControlRequest { request: STATE_REQUEST, value: state.0 as u16, index: interface_number as u16 }
}

/// Exactly one response byte is expected to the supported-speeds request.
pub fn valid_speeds_response_len(len: usize) -> (r: bool)
    ensures
        r == (len == 1),
{
    len == 1
}

} // verus!
