//! Measurement retrieval and raw register decoding.

use crate::bus::{BusOp, I2cBus};
use crate::types::{BitFlagsLow, Error, NbError, Register, SensorData, Tmp006};
use vstd::prelude::*;

verus! {

/// The unsigned big-endian 16-bit word held by a two-byte response.
pub open spec fn be_word(resp: Seq<u8>) -> u16 {
    (resp[0] * 256 + resp[1]) as u16
}

/// The signed value of an unsigned 16-bit word, reinterpreted as
/// two's complement.
pub open spec fn signed_of(word: u16) -> int {
    if word < 32768 {
        word as int
    } else {
        word - 65536
    }
}

/// The signed two's-complement value of a two-byte big-endian response.
pub open spec fn signed16(resp: Seq<u8>) -> int {
    signed_of(be_word(resp))
}

/// Division by four truncating toward zero, as the hardware's left-justified
/// 14-bit ambient temperature field is scaled.
pub open spec fn div4_trunc(v: int) -> int {
    if v >= 0 {
        v / 4
    } else {
        -((-v) / 4)
    }
}

/// Whether the data-ready flag is set in the low configuration byte.
pub open spec fn drdy_set(lo: u8) -> bool {
    lo & BitFlagsLow::DRDY != 0
}

/// One register-read transaction: a one-byte register selector written to
/// the device at `addr`, answered by a two-byte response.
pub open spec fn is_register_read(t: BusOp, addr: u8, reg: u8) -> bool {
    t matches BusOp::WriteRead { addr: a, bytes, response } && a == addr && bytes == seq![reg]
        && response.len() == 2
}

/// The response bytes of a combined write-read transaction.
pub open spec fn response_of(t: BusOp) -> Seq<u8> {
    t->response
}

/// Two's-complement decoding of a two-byte big-endian response is exact:
/// the decoded value lies in the signed 16-bit range, and re-encoding it
/// modulo 2^16 gives back the unsigned register word, which is itself the
/// big-endian composition of the two response bytes.
pub proof fn lemma_signed16_round_trip(resp: Seq<u8>)
    requires
        resp.len() == 2,
    ensures
        -32768 <= signed16(resp) <= 32767,
        signed16(resp) % 0x10000 == be_word(resp),
        be_word(resp) == resp[0] * 256 + resp[1],
{
    let w = be_word(resp) as int;
    if signed16(resp) < 0 {
        vstd::arithmetic::div_mod::lemma_mod_add_multiples_vanish(w - 0x10000, 0x10000);
        vstd::arithmetic::div_mod::lemma_small_mod(w as nat, 0x10000);
    } else {
        vstd::arithmetic::div_mod::lemma_small_mod(w as nat, 0x10000);
    }
}

/// Reinterpret an unsigned big-endian 16-bit register word as a signed
/// two's-complement value.
fn decode_i16(word: u16) -> (r: i16)
    ensures
        r as int == signed_of(word),
{
    if word < 0x8000 {
        word as i16
    } else {
        -((0xFFFFu16 - word) as i16) - 1
    }
}

/// Divide by four, truncating toward zero.
fn quarter_trunc(v: i16) -> (r: i16)
    ensures
        r as int == div4_trunc(v as int),
{
    if v >= 0 {
        ((v as u16) / 4) as i16
    } else {
        let w: i32 = v as i32;
        let mag: u16 = (-w) as u16;
        let q: u16 = mag / 4;
        (-(q as i32)) as i16
    }
}

impl<B: I2cBus> Tmp006<B> {
    /// Read one 16-bit register as a big-endian word: write the register
    /// selector, read two bytes back.
    fn read_register(&mut self, register: u8) -> (r: Result<u16, Error<B::BusError>>)
        ensures
            final(self).device_address() == old(self).device_address(),
            final(self).config_bits() == old(self).config_bits(),
            match r {
                Ok(v) => ({
                    let t = final(self).ops().last();
                    &&& final(self).ops() == old(self).ops().push(t)
                    &&& is_register_read(t, old(self).device_address(), register)
                    &&& v == be_word(response_of(t))
                }),
                Err(_) => final(self).ops() == old(self).ops(),
            },
    {
        let mut data: [u8; 2] = [0, 0];
        let selector: [u8; 1] = [register];
        match self.i2c.write_read(self.address, selector.as_slice(), &mut data) {
            Ok(()) => {
                proof {
                    assert(selector@ =~= seq![register]);
                }
                let v: u16 = (data[0] as u16) * 256 + (data[1] as u16);
                Ok(v)
            },
            Err(e) => Err(Error::I2C(e)),
        }
    }

    /// Read whether there is data ready to be read: bit 7 of the low
    /// configuration byte. `false` means a conversion is in progress.
    pub fn is_data_ready(&mut self) -> (r: Result<bool, Error<B::BusError>>)
        ensures
            final(self).device_address() == old(self).device_address(),
            final(self).config_bits() == old(self).config_bits(),
            match r {
                Ok(ready) => ({
                    let t = final(self).ops().last();
                    &&& final(self).ops() == old(self).ops().push(t)
                    &&& is_register_read(t, old(self).device_address(), Register::CONFIG)
                    &&& ready == drdy_set(response_of(t)[1])
                }),
                Err(_) => final(self).ops() == old(self).ops(),
            },
    {
        let config = match self.read_register(Register::CONFIG) {
            Ok(v) => v,
            Err(e) => {
                return Err(e);
            },
        };
        proof {
            let resp = response_of(final(self).ops().last());
            let hi = resp[0];
            let lo = resp[1];
            assert(((((hi as u16) * 256 + (lo as u16)) as u16) & 0x80u16 != 0) == (lo & 0x80u8
                != 0)) by (bit_vector);
        }
        Ok(config & (BitFlagsLow::DRDY as u16) != 0)
    }

    /// Read the manufacturer ID: the raw big-endian register word,
    /// `0x5449` per default.
    pub fn read_manufacturer_id(&mut self) -> (r: Result<u16, Error<B::BusError>>)
        ensures
            final(self).device_address() == old(self).device_address(),
            final(self).config_bits() == old(self).config_bits(),
            match r {
                Ok(v) => ({
                    let t = final(self).ops().last();
                    &&& final(self).ops() == old(self).ops().push(t)
                    &&& is_register_read(t, old(self).device_address(), Register::MANUFAC_ID)
                    &&& v == be_word(response_of(t))
                }),
                Err(_) => final(self).ops() == old(self).ops(),
            },
    {
        self.read_register(Register::MANUFAC_ID)
    }

    /// Read the device ID: the raw big-endian register word, `0x0067` per
    /// default.
    pub fn read_device_id(&mut self) -> (r: Result<u16, Error<B::BusError>>)
        ensures
            final(self).device_address() == old(self).device_address(),
            final(self).config_bits() == old(self).config_bits(),
            match r {
                Ok(v) => ({
                    let t = final(self).ops().last();
                    &&& final(self).ops() == old(self).ops().push(t)
                    &&& is_register_read(t, old(self).device_address(), Register::DEVICE_ID)
                    &&& v == be_word(response_of(t))
                }),
                Err(_) => final(self).ops() == old(self).ops(),
            },
    {
        self.read_register(Register::DEVICE_ID)
    }

    /// Read the raw data from the sensor, as a non-blocking operation.
    ///
    /// First the configuration register is read; if the data-ready flag is
    /// clear, the operation stops there and signals [`NbError::WouldBlock`]
    /// so the caller can retry later. Otherwise the object voltage and
    /// ambient temperature registers are read and decoded: the object
    /// voltage as a signed 16-bit value, the ambient temperature as a
    /// signed 16-bit value scaled down by a truncating division by four.
    pub fn read_sensor_data(&mut self) -> (r: Result<SensorData, NbError<Error<B::BusError>>>)
        ensures
            final(self).device_address() == old(self).device_address(),
            final(self).config_bits() == old(self).config_bits(),
            match r {
                Ok(data) => ({
                    let pre = old(self).ops();
                    let post = final(self).ops();
                    let t1 = post[pre.len() as int];
                    let t2 = post[pre.len() as int + 1];
                    let t3 = post[pre.len() as int + 2];
                    &&& post == pre.push(t1).push(t2).push(t3)
                    &&& is_register_read(t1, old(self).device_address(), Register::CONFIG)
                    &&& drdy_set(response_of(t1)[1])
                    &&& is_register_read(t2, old(self).device_address(), Register::V_OBJECT)
                    &&& data.object_voltage == signed16(response_of(t2))
                    &&& is_register_read(t3, old(self).device_address(), Register::TEMP_AMBIENT)
                    &&& data.ambient_temperature == div4_trunc(signed16(response_of(t3)))
                }),
                Err(NbError::WouldBlock) => ({
                    let t = final(self).ops().last();
                    &&& final(self).ops() == old(self).ops().push(t)
                    &&& is_register_read(t, old(self).device_address(), Register::CONFIG)
                    &&& !drdy_set(response_of(t)[1])
                }),
                Err(NbError::Other(_)) => ({
                    let pre = old(self).ops();
                    let post = final(self).ops();
                    ||| post == pre
                    ||| ({
                        let t1 = post[pre.len() as int];
                        &&& post == pre.push(t1)
                        &&& is_register_read(t1, old(self).device_address(), Register::CONFIG)
                        &&& drdy_set(response_of(t1)[1])
                    })
                    ||| ({
                        let t1 = post[pre.len() as int];
                        let t2 = post[pre.len() as int + 1];
                        &&& post == pre.push(t1).push(t2)
                        &&& is_register_read(t1, old(self).device_address(), Register::CONFIG)
                        &&& drdy_set(response_of(t1)[1])
                        &&& is_register_read(t2, old(self).device_address(), Register::V_OBJECT)
                    })
                }),
            },
    {
        let ready = match self.is_data_ready() {
            Ok(b) => b,
            Err(e) => {
                return Err(NbError::Other(e));
            },
        };
        if !ready {
            return Err(NbError::WouldBlock);
        }
        let v = match self.read_register(Register::V_OBJECT) {
            Ok(v) => v,
            Err(e) => {
                return Err(NbError::Other(e));
            },
        };
        let temp = match self.read_register(Register::TEMP_AMBIENT) {
            Ok(v) => v,
            Err(e) => {
                return Err(NbError::Other(e));
            },
        };
        let data = SensorData {
            object_voltage: decode_i16(v),
            ambient_temperature: quarter_trunc(decode_i16(temp)),
        };
        Ok(data)
    }
}

} // verus!
