//! Platform-agnostic driver for the TMP006/TMP006B non-contact infrared
//! thermopile temperature sensor.
//!
//! The driver talks to the sensor over a two-wire synchronous serial bus,
//! abstracted by the [`I2cBus`] trait. Every bus interaction is reflected in a
//! ghost transaction log, so the contracts of the driver's methods state
//! exactly which bytes are written to the device and how the values returned
//! by the driver derive from the bytes the device handed back.
//!
//! The crate provides:
//! - device control: enable/disable, software reset, conversion-rate
//!   configuration and data-ready pin control, all maintaining a cached
//!   mirror of the device's configuration register;
//! - measurement retrieval: raw object voltage, raw ambient temperature,
//!   manufacturer and device identification, with exact two's-complement
//!   decoding of the 16-bit register words;
//! - a verified in-memory bus ([`MockI2c`]) that replays planned
//!   transactions, for driving the sensor logic in tests.

pub mod bus;
pub mod config;
pub mod mock;
pub mod reading;
pub mod types;

pub use bus::{BusOp, I2cBus};
pub use mock::{MockError, MockI2c, MockTransaction};
pub use types::{ConversionRate, Error, NbError, SensorData, SlaveAddr, Tmp006};
pub use types::{BitFlagsHigh, BitFlagsLow, ConfigHigh, Register, DEVICE_BASE_ADDRESS};
