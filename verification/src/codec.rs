//! Decoding of raw response bytes into calibrated values: big-endian
//! assembly, the status-bit mask of the temperature response, and the
//! fixed-point temperature scale.

use vstd::prelude::*;
use crate::protocol::Channel;

verus! {

/// Raw temperature units per degree Celsius: the device reports temperature
/// as a fixed-point count of 1/65536 °C steps.
pub const TEMP_UNITS_PER_DEGREE: u32 = 65536;

/// Mask that clears the two reserved status bits of the leading temperature
/// byte.
pub const TEMP_STATUS_MASK: u8 = 0x3F;

/// Big-endian value of a two-byte response.
pub open spec fn be_u16_of(bytes: Seq<u8>) -> int
    recommends
        bytes.len() == 2,
{
    bytes[0] * 0x100 + bytes[1]
}

/// Big-endian value of a four-byte response, with no masking applied.
pub open spec fn be_u32_of(bytes: Seq<u8>) -> int
    recommends
        bytes.len() == 4,
{
    bytes[0] * 0x1000000 + bytes[1] * 0x10000 + bytes[2] * 0x100 + bytes[3]
}

/// Raw temperature carried by a four-byte response: the two reserved status
/// bits of the leading byte are cleared with the `0x3F` mask first, and only
/// then are the four bytes assembled big-endian.
pub open spec fn temp_raw_of(bytes: Seq<u8>) -> int
    recommends
        bytes.len() == 4,
{
    (bytes[0] & TEMP_STATUS_MASK) * 0x1000000 + bytes[1] * 0x10000 + bytes[2] * 0x100 + bytes[3]
}

/// A decoded ambient temperature, held exactly as the device's fixed-point
/// count of 1/65536 °C units. The device documents roughly ±2 °C accuracy;
/// the count itself is reported without rounding.
#[derive(Clone, Copy, PartialEq, Eq, Structural, Debug)]
pub struct TemperatureReading {
    /// Temperature in units of 1/65536 °C.
    pub raw: u32,
}

impl TemperatureReading {
    /// Whole degrees Celsius, rounded toward zero.
    pub fn whole_celsius(&self) -> (d: u32)
        ensures
            d == self.raw / TEMP_UNITS_PER_DEGREE,
    {
        self.raw / TEMP_UNITS_PER_DEGREE
    }

    /// Microdegrees Celsius, rounded down; exact whenever the raw count is a
    /// multiple of a 1/1000000 °C step.
    pub fn micro_celsius(&self) -> (m: u64)
        ensures
            m == self.raw * 1000000 / (TEMP_UNITS_PER_DEGREE as int),
    {
        (self.raw as u64) * 1000000 / (TEMP_UNITS_PER_DEGREE as u64)
    }
}

/// A decoded measurement from either channel. Moisture is the direct
/// big-endian value, nominally 200 (very dry) to 2000 (very wet); values
/// outside that range pass through unclamped.
#[derive(Clone, Copy, PartialEq, Eq, Structural, Debug)]
pub enum Reading {
    Temperature(TemperatureReading),
    Moisture(u16),
}

/// What a full response decodes to on each channel.
pub open spec fn decode_of(channel: Channel, bytes: Seq<u8>) -> Reading
    recommends
        bytes.len() == channel.spec_response_len(),
{
    match channel {
        Channel::Temperature => Reading::Temperature(
            TemperatureReading { raw: temp_raw_of(bytes) as u32 },
        ),
        Channel::Moisture => Reading::Moisture(be_u16_of(bytes) as u16),
    }
}

/// Decodes a four-byte temperature response: masks the leading byte with
/// `0x3F`, then assembles the four bytes as a big-endian unsigned integer.
pub fn decode_temperature_raw(bytes: &Vec<u8>) -> (r: u32)
    requires
        bytes@.len() == 4,
    ensures
        r == temp_raw_of(bytes@),
        r < 0x40000000,
{
    let masked: u8 = bytes[0] & TEMP_STATUS_MASK;
    proof {
        let b0: u8 = bytes@[0];
        assert(b0 & 0x3F < 0x40) by (bit_vector);
    }
    (masked as u32) * 0x1000000 + (bytes[1] as u32) * 0x10000 + (bytes[2] as u32) * 0x100
        + (bytes[3] as u32)
}

/// Decodes a two-byte moisture response as a big-endian unsigned integer,
/// with no masking and no clamping.
pub fn decode_moisture(bytes: &Vec<u8>) -> (r: u16)
    requires
        bytes@.len() == 2,
    ensures
        r == be_u16_of(bytes@),
{
    (bytes[0] as u16) * 0x100 + (bytes[1] as u16)
}

/// Decodes a full response on the given channel.
pub fn decode_response(channel: Channel, bytes: &Vec<u8>) -> (r: Reading)
    requires
        bytes@.len() == channel.spec_response_len(),
    ensures
        r == decode_of(channel, bytes@),
{
    match channel {
        Channel::Temperature => Reading::Temperature(
            TemperatureReading { raw: decode_temperature_raw(bytes) },
        ),
        Channel::Moisture => Reading::Moisture(decode_moisture(bytes)),
    }
}

/// Clearing the two reserved status bits of the leading byte before assembly
/// is the same as reducing the unmasked big-endian value modulo 2^30: the
/// mask is applied before any scaling and touches nothing but the top two
/// bits of the value.
pub proof fn lemma_mask_before_assembly(bytes: Seq<u8>)
    requires
        bytes.len() == 4,
    ensures
        temp_raw_of(bytes) == be_u32_of(bytes) % 0x40000000,
{
    let b0: u8 = bytes[0];
    let b1: u8 = bytes[1];
    let b2: u8 = bytes[2];
    let b3: u8 = bytes[3];
    assert((b0 & 0x3F) * 0x1000000 + b1 * 0x10000 + b2 * 0x100 + b3 == (b0 * 0x1000000 + b1
        * 0x10000 + b2 * 0x100 + b3) % 0x40000000) by (bit_vector);
}

} // verus!
