//! The bus transport the driver runs over, and the ghost record of the
//! transactions it performs.
//!
//! The driver never talks to hardware itself: the caller supplies a type
//! implementing [`BusTransport`], and every contract of the driver is stated
//! over the transport's transaction log.

use vstd::prelude::*;

verus! {

/// One completed bus transaction, as the contracts record it.
#[verifier::ext_equal]
pub enum Transaction {
    /// Bytes sent to a device address.
    Write { addr: u8, data: Seq<u8> },
    /// Command bytes sent to a device address, then response bytes read
    /// back, without releasing the bus in between.
    WriteRead { addr: u8, command: Seq<u8>, response: Seq<u8> },
}

/// An abstract register-addressed bus with two primitive transactions:
/// write bytes to a device address, and write-then-read against a device
/// address. The caller implements it for the concrete transport; the driver
/// owns the implementation exclusively for its lifetime.
///
/// Each implementation carries a ghost log of the transactions completed so
/// far. A successful primitive appends exactly its own transaction; a failed
/// one reports the transport's error and leaves the log unchanged, so no
/// partial success is ever recorded.
pub trait BusTransport: Sized {
    /// The transport's failure kind (NACK, arbitration loss, and the like):
    /// opaque to the driver and propagated verbatim.
    type Error;

    /// The sequence of transactions completed on the bus so far.
    ///
    /// A verified transport overrides this with its own model; it cannot
    /// keep the default, since the two primitives' contracts make the log
    /// grow. A transport outside the verifier may leave it as it is: no
    /// proof rests on such an implementation.
    open spec fn log(&self) -> Seq<Transaction> {
        Seq::empty()
    }

    /// Sends `data` to the device at address `addr`.
    fn write(&mut self, addr: u8, data: &[u8]) -> (r: Result<(), Self::Error>)
        ensures
            r is Ok ==> final(self).log() == old(self).log().push(
                Transaction::Write { addr, data: data@ },
            ),
            r is Err ==> final(self).log() == old(self).log(),
    ;

    /// Sends `command` to the device at address `addr`, then reads exactly
    /// `len` response bytes.
    fn write_read(&mut self, addr: u8, command: &[u8], len: usize) -> (r: Result<
        Vec<u8>,
        Self::Error,
    >)
        ensures
            r matches Ok(response) ==> response@.len() == len && final(self).log() == old(
                self,
            ).log().push(
                Transaction::WriteRead { addr, command: command@, response: response@ },
            ),
            r is Err ==> final(self).log() == old(self).log(),
    ;
}

} // verus!
