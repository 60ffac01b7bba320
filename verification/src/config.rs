//! Configuration register model and device control operations.

use crate::bus::{BusOp, I2cBus};
use crate::types::{
    addr_value, BitFlagsHigh, ConfigHigh, ConversionRate, Error, Register, SlaveAddr, Tmp006,
    DEVICE_BASE_ADDRESS,
};
use vstd::prelude::*;

verus! {

/// The default configuration register high byte: continuous conversion mode
/// enabled, conversion rate 1 per second, DRDY pin disabled, reset bit clear.
pub open spec fn default_config_bits() -> u8 {
    BitFlagsHigh::MOD | BitFlagsHigh::CR1
}

/// The 3-byte configuration write transaction as it appears on the bus:
/// register selector, configuration high byte, zero low byte.
pub open spec fn config_write_op(addr: u8, bits: u8) -> BusOp {
    BusOp::Write { addr, bytes: seq![Register::CONFIG, bits, 0u8] }
}

/// Holds after a control operation completed: the cached configuration
/// equals `bits` and exactly one 3-byte configuration write of `bits` was
/// performed on the bus.
pub open spec fn wrote_config<B: I2cBus>(pre: Tmp006<B>, post: Tmp006<B>, bits: u8) -> bool {
    &&& post.device_address() == pre.device_address()
    &&& post.config_bits() == bits
    &&& post.ops() == pre.ops().push(config_write_op(pre.device_address(), bits))
}

/// Holds after a control operation failed: no transaction was performed and
/// the cached configuration is left unchanged.
pub open spec fn device_unchanged<B: I2cBus>(pre: Tmp006<B>, post: Tmp006<B>) -> bool {
    &&& post.device_address() == pre.device_address()
    &&& post.config_bits() == pre.config_bits()
    &&& post.ops() == pre.ops()
}

impl ConfigHigh {
    /// The byte with the bits of `mask` set.
    fn with_high(self, mask: u8) -> (r: Self)
        ensures
            r.bits == self.bits | mask,
    {
        ConfigHigh { bits: self.bits | mask }
    }

    /// The byte with the bits of `mask` cleared.
    fn with_low(self, mask: u8) -> (r: Self)
        ensures
            r.bits == self.bits & !mask,
    {
        ConfigHigh { bits: self.bits & !mask }
    }
}

impl Default for ConfigHigh {
    /// The default configuration register high byte.
    fn default() -> (r: Self)
        ensures
            r.bits == default_config_bits(),
    {
        let r = ConfigHigh { bits: 0 }.with_high(BitFlagsHigh::MOD).with_high(BitFlagsHigh::CR1);
        proof {
            assert(0u8 | BitFlagsHigh::MOD | BitFlagsHigh::CR1 == BitFlagsHigh::MOD
                | BitFlagsHigh::CR1) by (bit_vector);
        }
        r
    }
}

impl<B: I2cBus> Tmp006<B> {
    /// Create a new driver instance from a bus transport and an address
    /// selection. The cached configuration starts at the device's
    /// power-on default.
    pub fn new(i2c: B, address: SlaveAddr) -> (r: Self)
        ensures
            r.device_address() == addr_value(address, DEVICE_BASE_ADDRESS),
            r.config_bits() == default_config_bits(),
            r.bus() == i2c,
    {
        Tmp006 { i2c, address: address.addr(DEVICE_BASE_ADDRESS), config: ConfigHigh::default() }
    }

    /// Destroy the driver instance, returning the bus transport.
    pub fn destroy(self) -> (r: B)
        ensures
            r == self.bus(),
    {
        self.i2c
    }

    /// Enable the sensor (default state): sensor and ambient continuous
    /// conversion.
    ///
    /// Note: the configuration write implicitly clears the device's
    /// data-ready condition.
    pub fn enable(&mut self) -> (r: Result<(), Error<B::BusError>>)
        ensures
            r is Ok ==> wrote_config(
                *old(self),
                *final(self),
                old(self).config_bits() | BitFlagsHigh::MOD,
            ),
            r is Err ==> device_unchanged(*old(self), *final(self)),
    {
        let config = self.config;
        self.write_config(config.with_high(BitFlagsHigh::MOD))
    }

    /// Disable the sensor (power-down).
    ///
    /// Note: the configuration write implicitly clears the device's
    /// data-ready condition.
    pub fn disable(&mut self) -> (r: Result<(), Error<B::BusError>>)
        ensures
            r is Ok ==> wrote_config(
                *old(self),
                *final(self),
                old(self).config_bits() & !BitFlagsHigh::MOD,
            ),
            r is Err ==> device_unchanged(*old(self), *final(self)),
    {
        let config = self.config;
        self.write_config(config.with_low(BitFlagsHigh::MOD))
    }

    /// Reset the sensor (software reset).
    ///
    /// The device self-clears the reset bit and returns to its default
    /// configuration in hardware, so after a completed reset the cached
    /// configuration is restored to the default as well.
    ///
    /// Note: the configuration write implicitly clears the device's
    /// data-ready condition.
    pub fn reset(&mut self) -> (r: Result<(), Error<B::BusError>>)
        ensures
            r is Ok ==> {
                &&& final(self).device_address() == old(self).device_address()
                &&& final(self).config_bits() == default_config_bits()
                &&& final(self).ops() == old(self).ops().push(
                    config_write_op(
                        old(self).device_address(),
                        old(self).config_bits() | BitFlagsHigh::SW_RESET,
                    ),
                )
            },
            r is Err ==> device_unchanged(*old(self), *final(self)),
    {
        let config = self.config;
        self.write_config(config.with_high(BitFlagsHigh::SW_RESET))?;
        self.config = ConfigHigh::default();
        Ok(())
    }

    /// Enable the DRDY pin.
    ///
    /// Note: the configuration write implicitly clears the device's
    /// data-ready condition.
    pub fn enable_drdy_pin(&mut self) -> (r: Result<(), Error<B::BusError>>)
        ensures
            r is Ok ==> wrote_config(
                *old(self),
                *final(self),
                old(self).config_bits() | BitFlagsHigh::DRDY_EN,
            ),
            r is Err ==> device_unchanged(*old(self), *final(self)),
    {
        let config = self.config;
        self.write_config(config.with_high(BitFlagsHigh::DRDY_EN))
    }

    /// Disable the DRDY pin.
    ///
    /// Note: the configuration write implicitly clears the device's
    /// data-ready condition.
    pub fn disable_drdy_pin(&mut self) -> (r: Result<(), Error<B::BusError>>)
        ensures
            r is Ok ==> wrote_config(
                *old(self),
                *final(self),
                old(self).config_bits() & !BitFlagsHigh::DRDY_EN,
            ),
            r is Err ==> device_unchanged(*old(self), *final(self)),
    {
        let config = self.config;
        self.write_config(config.with_low(BitFlagsHigh::DRDY_EN))
    }

    /// Set the ADC conversion rate, preserving all bits outside the
    /// conversion-rate field.
    ///
    /// Note: the configuration write implicitly clears the device's
    /// data-ready condition.
    pub fn set_conversion_rate(&mut self, rate: ConversionRate) -> (r: Result<
        (),
        Error<B::BusError>,
    >)
        ensures
            r is Ok ==> wrote_config(
                *old(self),
                *final(self),
                rate_apply(old(self).config_bits(), rate),
            ),
            r is Err ==> device_unchanged(*old(self), *final(self)),
    {
        let config: ConfigHigh;
        match rate {
            ConversionRate::Cps4 => {
                config = self.config.with_low(BitFlagsHigh::CR2).with_low(BitFlagsHigh::CR1)
                    .with_low(BitFlagsHigh::CR0);
            },
            ConversionRate::Cps2 => {
                config = self.config.with_low(BitFlagsHigh::CR2).with_low(BitFlagsHigh::CR1)
                    .with_high(BitFlagsHigh::CR0);
            },
            ConversionRate::Cps1 => {
                config = self.config.with_low(BitFlagsHigh::CR2).with_high(BitFlagsHigh::CR1)
                    .with_low(BitFlagsHigh::CR0);
            },
            ConversionRate::Cps0_5 => {
                config = self.config.with_low(BitFlagsHigh::CR2).with_high(BitFlagsHigh::CR1)
                    .with_high(BitFlagsHigh::CR0);
            },
            ConversionRate::Cps0_25 => {
                config = self.config.with_high(BitFlagsHigh::CR2).with_low(BitFlagsHigh::CR1)
                    .with_low(BitFlagsHigh::CR0);
            },
        }
        proof {
            lemma_rate_chain(self.config.bits, rate);
        }
        self.write_config(config)
    }

    /// Write `config` to the device's configuration register as a 3-byte
    /// transaction (selector, high byte, zero low byte) and persist it as
    /// the cached state. On a bus error the cache is left unchanged.
    fn write_config(&mut self, config: ConfigHigh) -> (r: Result<(), Error<B::BusError>>)
        ensures
            r is Ok ==> wrote_config(*old(self), *final(self), config.bits),
            r is Err ==> device_unchanged(*old(self), *final(self)),
    {
        let payload: [u8; 3] = [Register::CONFIG, config.bits, 0];
        match self.i2c.write(self.address, payload.as_slice()) {
            Ok(()) => {
                self.config = config;
                proof {
                    assert(payload@ =~= seq![Register::CONFIG, config.bits, 0u8]);
                    assert(self.ops() =~= old(self).ops().push(
                        config_write_op(old(self).device_address(), config.bits),
                    ));
                }
                Ok(())
            },
            Err(e) => Err(Error::I2C(e)),
        }
    }
}

/// The CR2..CR0 conversion-rate field pattern documented for each rate:
/// 4 conversions per second encode as 000, then 001, 010, 011 and 100 for
/// each successive halving of the rate.
pub open spec fn rate_pattern(rate: ConversionRate) -> u8 {
    match rate {
        ConversionRate::Cps4 => 0,
        ConversionRate::Cps2 => BitFlagsHigh::CR0,
        ConversionRate::Cps1 => BitFlagsHigh::CR1,
        ConversionRate::Cps0_5 => BitFlagsHigh::CR1 | BitFlagsHigh::CR0,
        ConversionRate::Cps0_25 => BitFlagsHigh::CR2,
    }
}

/// The configuration byte after selecting `rate`: the conversion-rate field
/// replaced by the rate's pattern, every other bit preserved.
pub open spec fn rate_apply(bits: u8, rate: ConversionRate) -> u8 {
    (bits & !(BitFlagsHigh::CR2 | BitFlagsHigh::CR1 | BitFlagsHigh::CR0)) | rate_pattern(rate)
}

/// `enable()` is idempotent over the default state: the mode bits are
/// already set in the default configuration byte, so the byte written by
/// `enable()` after construction is the default byte itself,
/// `MOD | CR1 == 0x74`.
pub proof fn lemma_enable_on_default_writes_default()
    ensures
        default_config_bits() | BitFlagsHigh::MOD == default_config_bits(),
        default_config_bits() == 0x74,
{
    assert((0x70u8 | 0x04u8) | 0x70u8 == 0x70u8 | 0x04u8 && 0x70u8 | 0x04u8 == 0x74u8)
        by (bit_vector);
}

/// `disable()` from the default state clears exactly the mode bits: the
/// byte written is the default byte with the mode field cleared, leaving
/// only the conversion-rate bit `CR1`.
pub proof fn lemma_disable_on_default_clears_mode()
    ensures
        default_config_bits() & !BitFlagsHigh::MOD == BitFlagsHigh::CR1,
{
    assert((0x70u8 | 0x04u8) & !0x70u8 == 0x04u8) by (bit_vector);
}

/// `reset()` from the default state writes the default byte with the
/// software-reset bit set on top, `SW_RESET | MOD | CR1`; its own contract
/// states that the cached configuration afterwards equals the default
/// again.
pub proof fn lemma_reset_on_default_write_bits()
    ensures
        default_config_bits() | BitFlagsHigh::SW_RESET == BitFlagsHigh::SW_RESET
            | BitFlagsHigh::MOD | BitFlagsHigh::CR1,
{
    assert((0x70u8 | 0x04u8) | 0x80u8 == 0x80u8 | 0x70u8 | 0x04u8) by (bit_vector);
}

/// `set_conversion_rate` produces exactly the documented conversion-rate
/// field pattern while preserving the mode, DRDY-enable and software-reset
/// bits of the configuration byte it starts from.
pub proof fn lemma_rate_fields(bits: u8, rate: ConversionRate)
    ensures
        rate_apply(bits, rate) & (BitFlagsHigh::CR2 | BitFlagsHigh::CR1 | BitFlagsHigh::CR0)
            == rate_pattern(rate),
        rate_apply(bits, rate) & BitFlagsHigh::MOD == bits & BitFlagsHigh::MOD,
        rate_apply(bits, rate) & BitFlagsHigh::DRDY_EN == bits & BitFlagsHigh::DRDY_EN,
        rate_apply(bits, rate) & BitFlagsHigh::SW_RESET == bits & BitFlagsHigh::SW_RESET,
{
    let p = rate_pattern(rate);
    assert(0x04u8 | 0x02u8 == 0x06u8) by (bit_vector);
    assert(p == 0u8 || p == 0x02u8 || p == 0x04u8 || p == 0x06u8 || p == 0x08u8);
    assert((p == 0u8 || p == 0x02u8 || p == 0x04u8 || p == 0x06u8 || p == 0x08u8) ==> {
        &&& ((bits & !(0x08u8 | 0x04u8 | 0x02u8)) | p) & (0x08u8 | 0x04u8 | 0x02u8) == p
        &&& ((bits & !(0x08u8 | 0x04u8 | 0x02u8)) | p) & 0x70u8 == bits & 0x70u8
        &&& ((bits & !(0x08u8 | 0x04u8 | 0x02u8)) | p) & 0x01u8 == bits & 0x01u8
        &&& ((bits & !(0x08u8 | 0x04u8 | 0x02u8)) | p) & 0x80u8 == bits & 0x80u8
    }) by (bit_vector);
}

/// Clearing and setting the three conversion-rate bits one at a time
/// computes [`rate_apply`].
proof fn lemma_rate_chain(bits: u8, rate: ConversionRate)
    ensures
        rate_apply(bits, rate) == match rate {
            ConversionRate::Cps4 => bits & !BitFlagsHigh::CR2 & !BitFlagsHigh::CR1
                & !BitFlagsHigh::CR0,
            ConversionRate::Cps2 => bits & !BitFlagsHigh::CR2 & !BitFlagsHigh::CR1
                | BitFlagsHigh::CR0,
            ConversionRate::Cps1 => (bits & !BitFlagsHigh::CR2 | BitFlagsHigh::CR1)
                & !BitFlagsHigh::CR0,
            ConversionRate::Cps0_5 => bits & !BitFlagsHigh::CR2 | BitFlagsHigh::CR1
                | BitFlagsHigh::CR0,
            ConversionRate::Cps0_25 => (bits | BitFlagsHigh::CR2) & !BitFlagsHigh::CR1
                & !BitFlagsHigh::CR0,
        },
{
    match rate {
        ConversionRate::Cps4 => {
            assert((bits & !(0x08u8 | 0x04u8 | 0x02u8)) | 0u8 == bits & !0x08u8 & !0x04u8
                & !0x02u8) by (bit_vector);
        },
        ConversionRate::Cps2 => {
            assert((bits & !(0x08u8 | 0x04u8 | 0x02u8)) | 0x02u8 == bits & !0x08u8 & !0x04u8
                | 0x02u8) by (bit_vector);
        },
        ConversionRate::Cps1 => {
            assert((bits & !(0x08u8 | 0x04u8 | 0x02u8)) | 0x04u8 == (bits & !0x08u8 | 0x04u8)
                & !0x02u8) by (bit_vector);
        },
        ConversionRate::Cps0_5 => {
            assert((bits & !(0x08u8 | 0x04u8 | 0x02u8)) | (0x04u8 | 0x02u8) == bits & !0x08u8
                | 0x04u8 | 0x02u8) by (bit_vector);
        },
        ConversionRate::Cps0_25 => {
            assert((bits & !(0x08u8 | 0x04u8 | 0x02u8)) | 0x08u8 == (bits | 0x08u8) & !0x04u8
                & !0x02u8) by (bit_vector);
        },
    }
}

} // verus!
