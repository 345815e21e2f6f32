//! The sensor's register map: fixed byte addresses on the two-wire bus.

use vstd::prelude::*;

verus! {

/// A register of the sensor, addressable over the two-wire bus.
#[derive(Debug, Clone, Copy, PartialEq, Eq, Structural)]
pub enum Register {
    /// 1-byte device identity.
    Id,
    /// First 26 bytes of the calibration block.
    Calib00,
    /// Remaining 16 bytes of the calibration block.
    Calib26,
    /// Start of the 8-byte burst measurement block.
    Pressure,
    /// Start of the raw temperature bytes within the measurement block.
    Temperature,
    /// Start of the raw humidity bytes within the measurement block.
    Humidity,
}

impl Register {
    /// The byte address of the register on the bus.
    pub open spec fn spec_address(self) -> u8 {
        match self {
            Register::Id => 0xD0,
            Register::Calib00 => 0x88,
            Register::Calib26 => 0xE1,
            Register::Pressure => 0xF7,
            Register::Temperature => 0xFA,
            Register::Humidity => 0xFD,
        }
    }

    /// The byte address of the register on the bus.
    pub fn address(&self) -> (r: u8)
        ensures
            r == self.spec_address(),
    {
        match *self {
            Register::Id => 0xD0,
            Register::Calib00 => 0x88,
            Register::Calib26 => 0xE1,
            Register::Pressure => 0xF7,
            Register::Temperature => 0xFA,
            Register::Humidity => 0xFD,
        }
    }
}

} // verus!
