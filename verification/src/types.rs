//! Type definitions.

use crate::bus::{BusOp, I2cBus};
use vstd::prelude::*;

verus! {

/// All possible errors in this crate.
#[derive(Debug)]
pub enum Error<E> {
    /// Bus error reported by the transport.
    I2C(E),
}

/// Outcome of a non-blocking operation that failed to complete: either a
/// hard error, or a signal that the caller should retry later.
#[derive(Debug)]
pub enum NbError<E> {
    /// The operation failed with a hard error.
    Other(E),
    /// No result is available yet; retry the operation later.
    WouldBlock,
}

/// ADC conversion rate.
#[derive(Debug, Clone, Copy, PartialEq, Eq, Structural)]
pub enum ConversionRate {
    /// 4 conversions per second
    Cps4,
    /// 2 conversions per second
    Cps2,
    /// 1 conversion per second (default)
    Cps1,
    /// 0.5 conversions per second
    Cps0_5,
    /// 0.25 conversions per second
    Cps0_25,
}

/// Data as read from the sensor.
#[derive(Debug, Default, Clone, Copy, PartialEq, Eq, Structural)]
pub struct SensorData {
    /// Object voltage: `[-32768..32767]`
    pub object_voltage: i16,
    /// Ambient temperature: `[-8192..8191]`
    pub ambient_temperature: i16,
}

/// Possible slave addresses.
#[derive(Debug, Clone, Copy, PartialEq, Eq, Structural)]
pub enum SlaveAddr {
    /// Default slave address
    Default,
    /// Alternative slave address providing bit values for A2, A1 and A0.
    ///
    /// Each bit is OR'd onto the base address at bit positions 2, 1 and 0.
    Alternative(bool, bool, bool),
}

/// The 7-bit base device address.
pub const DEVICE_BASE_ADDRESS: u8 = 0b100_0000;

/// A select bit as its one-bit numeric value.
pub open spec fn bit8(b: bool) -> u8 {
    if b {
        1
    } else {
        0
    }
}

/// The 7-bit bus address a [`SlaveAddr`] resolves to over a given base
/// address: the base itself, or the base with the three select bits OR'd
/// onto bit positions 2, 1 and 0.
pub open spec fn addr_value(s: SlaveAddr, base: u8) -> u8 {
    match s {
        SlaveAddr::Default => base,
        SlaveAddr::Alternative(a2, a1, a0) => base | (bit8(a2) << 2) | (bit8(a1) << 1) | bit8(a0),
    }
}

impl Default for SlaveAddr {
    /// Default slave address.
    fn default() -> (r: Self)
        ensures
            r == SlaveAddr::Default,
    {
        SlaveAddr::Default
    }
}

impl SlaveAddr {
    /// Resolve to the concrete 7-bit bus address over the given base address.
    pub fn addr(self, base: u8) -> (r: u8)
        ensures
            r == addr_value(self, base),
    {
        match self {
            SlaveAddr::Default => base,
            SlaveAddr::Alternative(a2, a1, a0) => {
                let b2: u8 = if a2 {
                    1
                } else {
                    0
                };
                let b1: u8 = if a1 {
                    1
                } else {
                    0
                };
                let b0: u8 = if a0 {
                    1
                } else {
                    0
                };
                base | (b2 << 2u8) | (b1 << 1u8) | b0
            },
        }
    }
}

/// Where the three select bits do not overlap the base address's set bits,
/// each one contributes its own power of two: the resolved address is the
/// base plus 4, 2 and 1 for A2, A1 and A0 respectively.
pub proof fn lemma_alternative_address(a2: bool, a1: bool, a0: bool, base: u8)
    requires
        base & 0x07 == 0,
    ensures
        addr_value(SlaveAddr::Alternative(a2, a1, a0), base) == base + (if a2 {
            4int
        } else {
            0int
        }) + (if a1 {
            2int
        } else {
            0int
        }) + (if a0 {
            1int
        } else {
            0int
        }),
{
    assert(base & 0x07 == 0 ==> base | (bit8(a2) << 2) | (bit8(a1) << 1) | bit8(a0) == base + (
    if a2 {
        4int
    } else {
        0int
    }) + (if a1 {
        2int
    } else {
        0int
    }) + (if a0 {
        1int
    } else {
        0int
    })) by (bit_vector);
}

/// Register byte addresses of the device.
pub struct Register;

impl Register {
    /// Object voltage register.
    pub const V_OBJECT: u8 = 0x00;

    /// Ambient temperature register.
    pub const TEMP_AMBIENT: u8 = 0x01;

    /// Configuration register.
    pub const CONFIG: u8 = 0x02;

    /// Manufacturer ID register.
    pub const MANUFAC_ID: u8 = 0xFE;

    /// Device ID register (aliases the manufacturer ID register address).
    pub const DEVICE_ID: u8 = 0xFE;
}

/// Flags in the high byte of the 16-bit configuration register.
pub struct BitFlagsHigh;

impl BitFlagsHigh {
    /// Software reset trigger (self-clearing in hardware).
    pub const SW_RESET: u8 = 0b1000_0000;

    /// Operating mode: sensor and ambient continuous conversion.
    pub const MOD: u8 = 0b0111_0000;

    /// Conversion rate field, bit 2.
    pub const CR2: u8 = 0b0000_1000;

    /// Conversion rate field, bit 1.
    pub const CR1: u8 = 0b0000_0100;

    /// Conversion rate field, bit 0.
    pub const CR0: u8 = 0b0000_0010;

    /// Data-ready pin enable.
    pub const DRDY_EN: u8 = 0b0000_0001;
}

/// Flags in the low byte of the 16-bit configuration register.
pub struct BitFlagsLow;

impl BitFlagsLow {
    /// Data ready: a conversion has completed (set by the device itself).
    pub const DRDY: u8 = 0b1000_0000;
}

/// The high byte of the configuration register, as cached by the driver.
#[derive(Debug, Clone, Copy)]
pub struct ConfigHigh {
    /// The raw flag byte.
    pub bits: u8,
}

/// TMP006 device driver.
///
/// Owns the bus transport exclusively, holds the resolved 7-bit device
/// address, and mirrors the high byte of the device's configuration
/// register so each control operation modifies only its own bits.
#[derive(Debug)]
pub struct Tmp006<I2C> {
    /// The concrete bus transport implementation.
    pub(crate) i2c: I2C,
    /// The resolved 7-bit device address.
    pub(crate) address: u8,
    /// Cached configuration register high byte.
    pub(crate) config: ConfigHigh,
}

impl<B: I2cBus> Tmp006<B> {
    /// The resolved 7-bit device address this handle talks to.
    pub open(crate) spec fn device_address(&self) -> u8 {
        self.address
    }

    /// The cached high byte of the device's configuration register.
    pub open(crate) spec fn config_bits(&self) -> u8 {
        self.config.bits
    }

    /// The bus transport owned by this handle.
    pub open(crate) spec fn bus(&self) -> B {
        self.i2c
    }

    /// The transactions performed on the owned bus, in order.
    pub open(crate) spec fn ops(&self) -> Seq<BusOp> {
        self.bus().ops()
    }
}

} // verus!
