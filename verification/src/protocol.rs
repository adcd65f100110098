//! Static register-protocol configuration: the bus address, the register
//! command of each measurement channel, the settle delay and the response
//! sizes.

use vstd::prelude::*;

verus! {

/// Fixed bus address of this sensor family.
pub const SENSOR_BUS_ADDRESS: u16 = 0x36;

/// Base register selecting the status block that holds the temperature.
pub const STATUS_BASE: u8 = 0x00;

/// Sub register of the temperature measurement.
pub const STATUS_TEMP: u8 = 0x04;

/// Base register selecting the capacitive touch block.
pub const TOUCH_BASE: u8 = 0x0F;

/// Sub register of the moisture measurement.
pub const TOUCH_READ: u8 = 0x10;

/// Milliseconds the device needs after a command write before its response
/// is valid: the internal analog-to-digital conversion latency. The same
/// delay applies to both channels.
pub const SETTLE_DELAY_MS: u64 = 5;

/// An immutable two-byte register command, written to the device as
/// `[base, sub]` to select which measurement to prepare.
#[derive(Clone, Copy, PartialEq, Eq, Structural, Debug)]
pub struct RegisterCommand {
    pub base: u8,
    pub sub: u8,
}

/// One of the two measurement channels of the sensor.
#[derive(Clone, Copy, PartialEq, Eq, Structural, Debug)]
pub enum Channel {
    Temperature,
    Moisture,
}

impl Channel {
    /// The register command that selects this channel's measurement.
    pub open spec fn spec_command(self) -> RegisterCommand {
        match self {
            Channel::Temperature => RegisterCommand { base: STATUS_BASE, sub: STATUS_TEMP },
            Channel::Moisture => RegisterCommand { base: TOUCH_BASE, sub: TOUCH_READ },
        }
    }

    /// The register command to write for this channel.
    pub fn command(&self) -> (c: RegisterCommand)
        ensures
            c == self.spec_command(),
    {
        match self {
            Channel::Temperature => RegisterCommand { base: STATUS_BASE, sub: STATUS_TEMP },
            Channel::Moisture => RegisterCommand { base: TOUCH_BASE, sub: TOUCH_READ },
        }
    }

    /// Exact number of response bytes this channel's decode consumes; no
    /// partial read is valid.
    pub open spec fn spec_response_len(self) -> usize {
        match self {
            Channel::Temperature => 4,
            Channel::Moisture => 2,
        }
    }

    /// The response buffer size for this channel.
    pub fn response_len(&self) -> (n: usize)
        ensures
            n == self.spec_response_len(),
    {
        match self {
            Channel::Temperature => 4,
            Channel::Moisture => 2,
        }
    }

    /// The settle delay to wait between the command write and the response
    /// read.
    pub fn settle_delay_ms(&self) -> (d: u64)
        ensures
            d == SETTLE_DELAY_MS,
    {
        SETTLE_DELAY_MS
    }
}

} // verus!
