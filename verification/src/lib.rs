//! Register-level transaction core for the TMAG5170-Q1 three-axis Hall sensor.
//!
//! The sensor is reached over SPI in fixed frames of four bytes, each protected
//! by a four-bit CRC. This crate builds the outbound frames, checks the CRC of
//! the frames that come back and decodes their payload. It performs no I/O: a
//! caller clocks a frame through its bus between the two halves of an
//! operation and hands the outcome back.

pub mod alert_config;
pub mod bits;
pub mod crc;
pub mod device_config;
pub mod frame;
pub mod register;
pub mod sensor_config;
pub mod system_config;
pub mod transaction;

pub use crate::register::Register;
pub use crate::transaction::ExtError;
