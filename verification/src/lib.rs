//! Driver core for a combined temperature/pressure/humidity sensor on a
//! two-wire register-addressed bus.
//!
//! The heart of the crate is the calibration subsystem: decoding the sensor's
//! 42-byte factory calibration block into typed coefficients, and the three
//! fixed-point compensation algorithms that turn raw ADC counts into
//! calibrated values.

pub mod arith;
pub mod calibration;
pub mod driver;
pub mod error;
pub mod measurement;
pub mod register;

pub use calibration::CalibrationData;
pub use driver::{BME280, DeviceAddr, I2cBus};
pub use error::{Error, ErrorKind};
pub use measurement::{Measurement, RawMeasurement};
pub use register::Register;
