//! The driver facade: owns the bus handle, device address and decoded
//! calibration, sequences the fixed register accesses of a measurement
//! cycle, and runs the compensation engine.

use vstd::prelude::*;
use crate::calibration::{
    spec_decode, spec_pressure, spec_humidity, spec_t_fine, spec_temperature, CalibrationData,
};
use crate::error::{Error, ErrorKind};
use crate::measurement::{spec_unpack, Measurement, RawMeasurement};
use crate::register::Register;

verus! {

/// The two 7-bit device addresses the sensor can occupy, selected by the
/// state of its address pin.
#[derive(Debug, Clone, Copy, PartialEq, Eq, Structural)]
pub enum DeviceAddr {
    /// Address pin low: 0x76.
    AD0,
    /// Address pin high: 0x77.
    AD1,
}

impl DeviceAddr {
    /// The 7-bit bus address selected by this address-pin state.
    pub open spec fn spec_address(self) -> u8 {
        match self {
            DeviceAddr::AD0 => 0x76,
            DeviceAddr::AD1 => 0x77,
        }
    }

    /// The 7-bit bus address selected by this address-pin state.
    pub fn address(&self) -> (r: u8)
        ensures
            r == self.spec_address(),
    {
        match *self {
            DeviceAddr::AD0 => 0x76,
            DeviceAddr::AD1 => 0x77,
        }
    }
}

/// The two-wire bus transport the driver consumes. Implementations sit at
/// the platform edge (outside this crate) and perform the actual bus
/// transactions; the driver relies only on what is stated here: a read
/// fills exactly the requested number of bytes, and every failure is a
/// transport error. What the bytes hold is the device's business and is
/// promised nowhere.
pub trait I2cBus {
    /// One write transaction to the device at `address`, with no
    /// partial-write recovery.
    fn write(&mut self, address: u8, bytes: &[u8]) -> (r: Result<(), Error>)
        ensures
            r matches Err(e) ==> e.kind == ErrorKind::Transport,
    ;

    /// One register-address write immediately followed by a read of `len`
    /// bytes, as a single atomic bus transaction.
    fn write_then_read(&mut self, address: u8, register: u8, len: usize) -> (r: Result<
        Vec<u8>,
        Error,
    >)
        ensures
            r matches Ok(buf) ==> buf@.len() == len,
            r matches Err(e) ==> e.kind == ErrorKind::Transport,
    ;
}

/// The compensated measurement produced from the calibration coefficients
/// and an 8-byte burst read of the measurement block.
pub open spec fn spec_measure(cal: CalibrationData, bytes: Seq<u8>) -> Measurement {
    let raw = spec_unpack(bytes);
    let t_fine = spec_t_fine(cal, raw.temperature);
    Measurement {
        temperature: spec_temperature(t_fine),
        pressure: spec_pressure(cal, t_fine, raw.pressure),
        humidity: spec_humidity(cal, t_fine, raw.humidity),
    }
}

/// The driver facade. Constructed only by a successful calibration read
/// and decode; afterwards, `measure` runs single blocking measurement
/// cycles over the bus.
pub struct BME280<B> {
    /// The bus transport the device is reached over.
    pub i2c: B,
    /// The device's 7-bit bus address.
    pub address: DeviceAddr,
    /// The coefficients decoded from the device's calibration block.
    pub calibration: CalibrationData,
}

impl<B: I2cBus> BME280<B> {
    /// One register-addressed read of `len` bytes from the device.
    fn read_register(&mut self, register: Register, len: usize) -> (r: Result<Vec<u8>, Error>)
        ensures
            final(self).address == old(self).address,
            final(self).calibration == old(self).calibration,
            r matches Ok(buf) ==> buf@.len() == len,
            r matches Err(e) ==> e.kind == ErrorKind::Transport,
    {
        let addr: u8 = self.address.address();
        let reg: u8 = register.address();
        self.i2c.write_then_read(addr, reg, len)
    }

    /// Bring the device up: read its identity register, then read and
    /// decode the 42-byte calibration block. Construction fails on any bus
    /// error; no driver value exists without successfully decoded
    /// calibration.
    pub fn new(i2c: B, address: DeviceAddr) -> (r: Result<BME280<B>, Error>)
        ensures
            r matches Ok(d) ==> d.address == address && (exists|bytes: Seq<u8>|
                bytes.len() == 42 && d.calibration == spec_decode(bytes)),
            r matches Err(e) ==> e.kind == ErrorKind::Transport,
    {
        let mut dev = BME280 { i2c, address, calibration: CalibrationData::default() };

        let _id: u8 = match dev.read_device_id_register() {
            Ok(v) => v,
            Err(e) => {
                return Err(e);
            },
        };

        let cal: CalibrationData = match dev.read_calibration() {
            Ok(c) => c,
            Err(e) => {
                return Err(e);
            },
        };
        dev.calibration = cal;

        Ok(dev)
    }

    /// Read the 1-byte device identity register.
    pub fn read_device_id_register(&mut self) -> (r: Result<u8, Error>)
        ensures
            final(self).address == old(self).address,
            final(self).calibration == old(self).calibration,
            r matches Err(e) ==> e.kind == ErrorKind::Transport,
    {
        let buffer: Vec<u8> = match self.read_register(Register::Id, 1) {
            Ok(b) => b,
            Err(e) => {
                return Err(e);
            },
        };

        Ok(buffer[0])
    }

    /// Read the device's calibration block — 26 bytes at the first
    /// calibration register, 16 at the second — and decode it. The decoder
    /// is total on 42-byte inputs, so this fails only on a bus error.
    pub fn read_calibration(&mut self) -> (r: Result<CalibrationData, Error>)
        ensures
            final(self).address == old(self).address,
            final(self).calibration == old(self).calibration,
            r matches Ok(c) ==> exists|bytes: Seq<u8>|
                bytes.len() == 42 && c == spec_decode(bytes),
            r matches Err(e) ==> e.kind == ErrorKind::Transport,
    {
        let mut buffer: Vec<u8> = match self.read_register(Register::Calib00, 26) {
            Ok(b) => b,
            Err(e) => {
                return Err(e);
            },
        };
        let mut rest: Vec<u8> = match self.read_register(Register::Calib26, 16) {
            Ok(b) => b,
            Err(e) => {
                return Err(e);
            },
        };
        buffer.append(&mut rest);

        match CalibrationData::from_vec(buffer) {
            Ok(c) => Ok(c),
            Err(e) => Err(e),
        }
    }

    /// Read the 8-byte measurement burst and unpack the raw readings.
    fn read_raw_values(&mut self) -> (r: Result<RawMeasurement, Error>)
        ensures
            final(self).address == old(self).address,
            final(self).calibration == old(self).calibration,
            r matches Ok(raw) ==> (exists|bytes: Seq<u8>|
                bytes.len() == 8 && raw == spec_unpack(bytes)) && 0 <= raw.pressure < 0x100000
                && 0 <= raw.temperature < 0x100000,
            r matches Err(e) ==> e.kind == ErrorKind::Transport,
    {
        let buffer: Vec<u8> = match self.read_register(Register::Pressure, 8) {
            Ok(b) => b,
            Err(e) => {
                return Err(e);
            },
        };

        let raw = RawMeasurement::unpack(buffer.as_slice());
        Ok(raw)
    }

    /// One blocking measurement cycle: write the humidity-control register,
    /// write the measurement-control register (oversampling ×1, forced
    /// mode), burst-read the measurement block, and compensate. The
    /// fine-value is recomputed within the cycle and handed explicitly from
    /// temperature compensation to the pressure and humidity steps.
    pub fn measure(&mut self) -> (r: Result<Measurement, Error>)
        ensures
            final(self).address == old(self).address,
            final(self).calibration == old(self).calibration,
            r matches Ok(m) ==> exists|bytes: Seq<u8>|
                bytes.len() == 8 && m == spec_measure(old(self).calibration, bytes),
            r matches Ok(m) ==> m.humidity <= 102400,
            r matches Err(e) ==> e.kind == ErrorKind::Transport,
    {
        let addr: u8 = self.address.address();

        let ctrl_hum: Vec<u8> = vec![0xF2, 0b001];
        match self.i2c.write(addr, ctrl_hum.as_slice()) {
            Ok(_) => (),
            Err(e) => {
                return Err(e);
            },
        };

        let ctrl_meas: Vec<u8> = vec![0xF4, 0b00100101];
        match self.i2c.write(addr, ctrl_meas.as_slice()) {
            Ok(_) => (),
            Err(e) => {
                return Err(e);
            },
        };

        let raw: RawMeasurement = match self.read_raw_values() {
            Ok(v) => v,
            Err(e) => {
                return Err(e);
            },
        };

        let (temperature, t_fine): (i32, i32) = self.calibration.compensate_temperature(
            raw.temperature,
        );
        let pressure: u32 = self.calibration.compensate_pressure(t_fine, raw.pressure);
        let humidity: u32 = self.calibration.compensate_humidity(t_fine, raw.humidity);

        Ok(Measurement { temperature, pressure, humidity })
    }
}

} // verus!
