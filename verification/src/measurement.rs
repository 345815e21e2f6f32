//! Raw and compensated measurements, and the unpacking of the sensor's
//! 8-byte burst measurement block.

use vstd::prelude::*;

verus! {

/// Raw ADC counts read from the measurement block: 20-bit pressure and
/// temperature readings held in signed 32-bit fields, and a 16-bit
/// humidity count.
#[derive(Debug, Clone, Copy, PartialEq, Eq, Structural)]
pub struct RawMeasurement {
    pub pressure: i32,
    pub temperature: i32,
    pub humidity: u16,
}

/// A compensated measurement in the sensor's native fixed-point units:
/// temperature in hundredths of a degree Celsius, pressure in 1/256 Pa,
/// humidity in 1/1024 %RH. Callers divide by 100, 256 and 1024 for
/// conventional units.
#[derive(Debug, Clone, Copy, PartialEq, Eq, Structural)]
pub struct Measurement {
    pub temperature: i32,
    pub pressure: u32,
    pub humidity: u32,
}

/// A 20-bit reading spread over three bytes: the first byte shifted left
/// twelve bits, the second shifted left four, and the high nibble of the
/// third (its low nibble is discarded).
pub open spec fn unpack20(b0: u8, b1: u8, b2: u8) -> int {
    b0 * 4096 + b1 * 16 + b2 / 16
}

/// A 16-bit reading spread over two bytes, big-endian.
pub open spec fn unpack16(b0: u8, b1: u8) -> int {
    b0 * 256 + b1
}

/// The raw readings held by an 8-byte burst starting at the pressure
/// register: pressure in bytes 0-2, temperature in bytes 3-5, humidity in
/// bytes 6-7.
pub open spec fn spec_unpack(bytes: Seq<u8>) -> RawMeasurement {
    RawMeasurement {
        pressure: unpack20(bytes[0], bytes[1], bytes[2]) as i32,
        temperature: unpack20(bytes[3], bytes[4], bytes[5]) as i32,
        humidity: unpack16(bytes[6], bytes[7]) as u16,
    }
}

/// Reassemble the 20-bit reading held at offset `i`.
fn read20(bytes: &[u8], i: usize) -> (r: i32)
    requires
        i + 2 < bytes@.len(),
    ensures
        r == unpack20(bytes@[i as int], bytes@[i + 1], bytes@[i + 2]),
        0 <= r < 0x100000,
{
    let v: u32 = (bytes[i] as u32) * 4096 + (bytes[i + 1] as u32) * 16 + (bytes[i + 2] as u32)
        / 16;
    v as i32
}

impl RawMeasurement {
    /// Unpack the raw readings from an 8-byte burst read of the measurement
    /// block. The 20-bit pressure and temperature values always lie in
    /// [0, 2^20); humidity is a full 16-bit count.
    pub fn unpack(bytes: &[u8]) -> (r: RawMeasurement)
        requires
            bytes@.len() >= 8,
        ensures
            r == spec_unpack(bytes@),
            0 <= r.pressure < 0x100000,
            0 <= r.temperature < 0x100000,
    {
        let pressure: i32 = read20(bytes, 0);
        let temperature: i32 = read20(bytes, 3);
        let humidity: u16 = (bytes[6] as u16) * 256 + (bytes[7] as u16);
        RawMeasurement { pressure, temperature, humidity }
    }
}

} // verus!
