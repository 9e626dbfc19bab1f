//! The bus transport capability the driver is layered on.
//!
//! The driver is generic over any transport that offers an addressed write
//! and an addressed write-then-read, plus a blocking delay. Every
//! transaction is recorded in a ghost transcript (`log`), so that the
//! driver's contracts can state exactly which bus traffic each operation
//! issues. The transport's error type stays abstract: the driver
//! propagates it verbatim and never inspects it.

use vstd::prelude::*;

verus! {

/// One bus transaction, as recorded in the ghost transcript of a
/// [`Transport`].
pub enum BusOp {
    /// Addressed write: device address, bytes written, success flag.
    Write(u8, Seq<u8>, bool),
    /// Addressed write-then-read: device address, bytes written, bytes
    /// read back, success flag.
    WriteRead(u8, Seq<u8>, Seq<u8>, bool),
    /// Blocking delay of this many microseconds.
    Delay(u32),
}

/// The bus transport capability: an addressed write, an addressed
/// write-then-read, and a blocking delay.
///
/// Implementors supply the physical transfer; the contracts here only pin
/// down the ghost transcript. Whether a transfer succeeds is the
/// transport's decision, so nothing is promised about the result beyond
/// its being recorded; what a read returns is likewise arbitrary and only
/// recorded.
pub trait Transport: Sized {
    /// Transport-defined error returned by a failing transfer.
    type Error;

    /// Ghost transcript of every transaction issued so far, oldest first.
    /// The default is a placeholder: an implementor that is to be verified
    /// overrides it with its own model of the traffic, while an unverified
    /// implementor can leave it be, since ghost code never runs.
    open spec fn log(&self) -> Seq<BusOp> {
        arbitrary()
    }

    /// Performs an addressed write of `bytes` to the device at `addr`.
    fn write(&mut self, addr: u8, bytes: &[u8]) -> (r: Result<(), Self::Error>)
        ensures
            final(self).log() == old(self).log().push(BusOp::Write(addr, bytes@, r is Ok)),
    ;

    /// Performs an addressed write of `out` followed by a read filling
    /// `buf`, as one transaction. The buffer keeps its length.
    fn write_read(&mut self, addr: u8, out: &[u8], buf: &mut Vec<u8>) -> (r: Result<
        (),
        Self::Error,
    >)
        ensures
            final(buf)@.len() == old(buf)@.len(),
            final(self).log() == old(self).log().push(
                BusOp::WriteRead(addr, out@, final(buf)@, r is Ok),
            ),
    ;

    /// Blocks the caller for at least `us` microseconds.
    fn delay_us(&mut self, us: u32)
        ensures
            final(self).log() == old(self).log().push(BusOp::Delay(us)),
    ;
}

} // verus!
