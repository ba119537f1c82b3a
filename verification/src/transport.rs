//! The bus transport the driver is built over.
//!
//! A [`Transport`] carries out single addressed exchanges on a two-wire bus.
//! Its specification is a ghost history of the exchanges that completed, so
//! that every driver operation can state exactly which bus traffic it caused.

use vstd::prelude::*;

verus! {

/// One completed bus exchange, as seen on the wire.
#[derive(Debug, Clone, Copy, PartialEq, Eq, Structural)]
pub enum Transaction {
    /// An addressed write of the two-byte payload `[command, value]`.
    Write { address: u8, command: u8, value: u8 },
    /// An addressed write of the one-byte payload `[command]`, followed by a
    /// read of one byte, `response`, in the same exchange.
    WriteRead { address: u8, command: u8, response: u8 },
}

/// An exclusive handle on an addressed two-wire bus.
///
/// `log()` is the history of exchanges that completed so far, oldest first.
/// Each method performs at most one exchange: on success it appends exactly
/// that exchange to the history; on failure (for example a no-acknowledge
/// from the addressed chip) it reports the transport's own error and the
/// history is unchanged. Nothing is promised about which calls succeed, nor
/// about the byte a read answers: both are the bus's and the chip's to
/// decide.
pub trait Transport: Sized {
    /// The transport's own failure report, surfaced to callers unchanged.
    type Error;

    /// The exchanges completed so far, oldest first.
    spec fn log(&self) -> Seq<Transaction>;

    /// Performs one addressed write of the two-byte payload
    /// `[command, value]`.
    fn write(&mut self, address: u8, command: u8, value: u8) -> (r: Result<(), Self::Error>)
        ensures
            r is Ok ==> final (self).log() == old(self).log().push(
                Transaction::Write { address, command, value },
            ),
            r is Err ==> final (self).log() == old(self).log(),
    ;

    /// Performs one addressed exchange that writes the one-byte payload
    /// `[command]` and reads back one byte.
    fn write_read(&mut self, address: u8, command: u8) -> (r: Result<u8, Self::Error>)
        ensures
            r matches Ok(response) ==> final (self).log() == old(self).log().push(
                Transaction::WriteRead { address, command, response },
            ),
            r is Err ==> final (self).log() == old(self).log(),
    ;
}

} // verus!
