//! An in-memory bus transport that replays planned transactions, for
//! driving the sensor logic in tests.

use crate::bus::{BusOp, I2cBus};
use vstd::prelude::*;

verus! {

/// Error reported by [`MockI2c`] when a bus call does not match the next
/// planned transaction.
#[derive(Debug, Clone, Copy, PartialEq, Eq, Structural)]
pub struct MockError;

/// One planned transaction: the address and bytes a bus call is expected to
/// write, and, for a combined write-read, the two response bytes to hand
/// back.
#[derive(Debug)]
pub struct MockTransaction {
    expected_addr: u8,
    expected_bytes: Vec<u8>,
    response: Option<Vec<u8>>,
}

impl MockTransaction {
    /// The bus transaction this plan entry stands for.
    pub closed spec fn op(&self) -> BusOp {
        match self.response {
            Some(resp) => BusOp::WriteRead {
                addr: self.expected_addr,
                bytes: self.expected_bytes@,
                response: resp@,
            },
            None => BusOp::Write { addr: self.expected_addr, bytes: self.expected_bytes@ },
        }
    }

    /// Plan a plain write of `bytes` to the device at `addr`.
    pub fn write(addr: u8, bytes: Vec<u8>) -> (r: Self)
        ensures
            r.op() == (BusOp::Write { addr, bytes: bytes@ }),
    {
        MockTransaction { expected_addr: addr, expected_bytes: bytes, response: None }
    }

    /// Plan a combined transaction: `bytes` written to the device at
    /// `addr`, answered with `response`.
    pub fn write_read(addr: u8, bytes: Vec<u8>, response: Vec<u8>) -> (r: Self)
        ensures
            r.op() == (BusOp::WriteRead { addr, bytes: bytes@, response: response@ }),
    {
        MockTransaction { expected_addr: addr, expected_bytes: bytes, response: Some(response) }
    }
}

/// An in-memory bus transport that replays a planned list of transactions.
///
/// Each bus call is compared against the next planned transaction: on a
/// match the call succeeds (a combined write-read hands back the planned
/// response bytes), otherwise the call fails with [`MockError`] and
/// performs no transaction.
pub struct MockI2c {
    planned: Vec<MockTransaction>,
    next: usize,
    performed: Ghost<Seq<BusOp>>,
}

impl MockI2c {
    /// Whether every planned transaction has been performed.
    pub closed spec fn exhausted(&self) -> bool {
        self.next >= self.planned@.len()
    }

    /// A mock bus that expects exactly the given transactions, in order.
    pub fn new(planned: Vec<MockTransaction>) -> (r: Self)
        ensures
            r.ops() == Seq::<BusOp>::empty(),
            r.exhausted() == (planned@.len() == 0),
    {
        MockI2c { planned, next: 0, performed: Ghost(Seq::empty()) }
    }

    /// Whether every planned transaction has been performed.
    pub fn done(&self) -> (r: bool)
        ensures
            r == self.exhausted(),
    {
        self.next >= self.planned.len()
    }
}

/// Whether two byte slices hold the same bytes.
fn slice_eq(a: &[u8], b: &[u8]) -> (r: bool)
    ensures
        r == (a@ == b@),
{
    if a.len() != b.len() {
        return false;
    }
    let mut i: usize = 0;
    while i < a.len()
        invariant
            i <= a@.len(),
            a@.len() == b@.len(),
            forall|j: int| 0 <= j < i ==> a@[j] == b@[j],
        decreases a@.len() - i,
    {
        if a[i] != b[i] {
            return false;
        }
        i = i + 1;
    }
    proof {
        assert(a@ =~= b@);
    }
    true
}

impl I2cBus for MockI2c {
    type BusError = MockError;

    closed spec fn ops(&self) -> Seq<BusOp> {
        self.performed@
    }

    fn write(&mut self, addr: u8, bytes: &[u8]) -> (r: Result<(), MockError>) {
        if self.next >= self.planned.len() {
            return Err(MockError);
        }
        let t = &self.planned[self.next];
        if t.response.is_some() || t.expected_addr != addr || !slice_eq(
            t.expected_bytes.as_slice(),
            bytes,
        ) {
            return Err(MockError);
        }
        self.next = self.next + 1;
        self.performed = Ghost(self.performed@.push(BusOp::Write { addr, bytes: bytes@ }));
        Ok(())
    }

    fn write_read(&mut self, addr: u8, bytes: &[u8], buffer: &mut [u8; 2]) -> (r: Result<
        (),
        MockError,
    >) {
        if self.next >= self.planned.len() {
            return Err(MockError);
        }
        let t = &self.planned[self.next];
        if t.expected_addr != addr || !slice_eq(t.expected_bytes.as_slice(), bytes) {
            return Err(MockError);
        }
        match &t.response {
            Some(resp) => {
                if resp.len() != 2 {
                    return Err(MockError);
                }
                let r0 = resp[0];
                let r1 = resp[1];
                *buffer = [r0, r1];
                self.next = self.next + 1;
                self.performed = Ghost(
                    self.performed@.push(
                        BusOp::WriteRead { addr, bytes: bytes@, response: buffer@ },
                    ),
                );
                Ok(())
            },
            None => Err(MockError),
        }
    }
}

} // verus!
