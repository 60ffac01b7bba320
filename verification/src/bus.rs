//! The bus capability the driver needs, and the model of its traffic.

use vstd::prelude::*;

verus! {

/// One transaction on the two-wire bus, as recorded in the ghost log of an
/// [`I2cBus`].
#[verifier::ext_equal]
pub enum BusOp {
    /// A plain write of `bytes` to the 7-bit device address `addr`.
    Write { addr: u8, bytes: Seq<u8> },
    /// A combined write of `bytes` (the register selector) to `addr`
    /// followed by reading `response` back, as one atomic transaction.
    WriteRead { addr: u8, bytes: Seq<u8>, response: Seq<u8> },
}

/// Minimal capability the driver needs from the bus transport: write a byte
/// sequence to a 7-bit target address, or write a selector sequence and read
/// a fixed-size response back as one atomic transaction.
///
/// Every performed transaction is appended to the ghost log `ops`, so the
/// driver's contracts can state exactly which bytes reached the device and
/// which bytes the device handed back. A failed call performs no transaction.
pub trait I2cBus: Sized {
    /// Error type reported by the bus transport.
    type BusError;

    /// The transactions this bus has performed, in order.
    spec fn ops(&self) -> Seq<BusOp>;

    /// Write `bytes` to the device at 7-bit address `addr`.
    fn write(&mut self, addr: u8, bytes: &[u8]) -> (r: Result<(), Self::BusError>)
        ensures
            r is Ok ==> final(self).ops() == old(self).ops().push(
                BusOp::Write { addr, bytes: bytes@ },
            ),
            r is Err ==> final(self).ops() == old(self).ops(),
    ;

    /// Write `bytes` to the device at `addr`, then read two bytes back into
    /// `buffer`, as one atomic transaction.
    fn write_read(&mut self, addr: u8, bytes: &[u8], buffer: &mut [u8; 2]) -> (r: Result<
        (),
        Self::BusError,
    >)
        ensures
            r is Ok ==> final(self).ops() == old(self).ops().push(
                BusOp::WriteRead { addr, bytes: bytes@, response: final(buffer)@ },
            ),
            r is Err ==> final(self).ops() == old(self).ops(),
    ;
}

} // verus!
