//! The bus-transport capability the driver is built over.
//!
//! The ADM1191 sits on a shared two-wire serial bus; the driver owns the
//! bus handle exclusively and addresses the device by a 7-bit address.
//! The transport is an external collaborator: the trait below models it
//! by the ghost sequence of transactions it has performed, so that every
//! driver contract can pin down exactly which bytes went out on the wire
//! and where each decoded result came from.

use vstd::prelude::*;

verus! {

/// One bus transaction as seen on the wire: the target address together
/// with the bytes written and/or read.
pub enum Transaction {
    /// A plain write of `data` to the device at `addr`.
    Write { addr: u8, data: Seq<u8> },
    /// A plain read from the device at `addr` that returned `data`.
    Read { addr: u8, data: Seq<u8> },
    /// A combined write-then-read: `wdata` written to `addr`, then
    /// `rdata` read back without releasing the bus in between.
    WriteRead { addr: u8, wdata: Seq<u8>, rdata: Seq<u8> },
}

impl Transaction {
    /// The device address a transaction was directed at.
    pub open spec fn addr(self) -> u8 {
        match self {
            Transaction::Write { addr, .. } => addr,
            Transaction::Read { addr, .. } => addr,
            Transaction::WriteRead { addr, .. } => addr,
        }
    }
}

/// Every transaction in `txns` is directed at the device address `addr`.
pub open spec fn all_addressed_to(txns: Seq<Transaction>, addr: u8) -> bool {
    forall|i: int| 0 <= i < txns.len() ==> (#[trigger] txns[i]).addr() == addr
}

/// An addressed bus transport offering blocking write, read and combined
/// write-then-read transactions.
///
/// `log` is the ghost history of completed transactions, oldest first. A
/// successful transaction appends exactly one entry; a failed one leaves
/// the log and any read buffer untouched, so a caller never sees a
/// partial result. `read` and `write_read` fill the whole read buffer: a
/// transport that cannot deliver that many bytes must report an error.
pub trait BusTransport: Sized {
    /// The transport's own error type, surfaced verbatim by the driver.
    type Error;

    /// The transactions this transport has completed, oldest first.
    /// Unless an implementation says otherwise, the log is left
    /// unspecified, and nothing can be concluded about it.
    open spec fn log(self) -> Seq<Transaction> {
        arbitrary()
    }

    /// Write all of `data` to the device at `addr`.
    fn write(&mut self, addr: u8, data: &Vec<u8>) -> (result: Result<(), Self::Error>)
        ensures
            result is Ok ==> final(self).log() == old(self).log().push(
                Transaction::Write { addr, data: data@ },
            ),
            result is Err ==> final(self).log() == old(self).log(),
    ;

    /// Read exactly `buf.len()` bytes from the device at `addr` into `buf`.
    fn read(&mut self, addr: u8, buf: &mut Vec<u8>) -> (result: Result<(), Self::Error>)
        ensures
            final(buf)@.len() == old(buf)@.len(),
            result is Ok ==> final(self).log() == old(self).log().push(
                Transaction::Read { addr, data: final(buf)@ },
            ),
            result is Err ==> final(self).log() == old(self).log() && final(buf)@ == old(buf)@,
    ;

    /// Write all of `wdata` to the device at `addr`, then read exactly
    /// `buf.len()` bytes back in the same transaction.
    fn write_read(&mut self, addr: u8, wdata: &Vec<u8>, buf: &mut Vec<u8>) -> (result: Result<
        (),
        Self::Error,
    >)
        ensures
            final(buf)@.len() == old(buf)@.len(),
            result is Ok ==> final(self).log() == old(self).log().push(
                Transaction::WriteRead { addr, wdata: wdata@, rdata: final(buf)@ },
            ),
            result is Err ==> final(self).log() == old(self).log() && final(buf)@ == old(buf)@,
    ;
}

/// Address-isolation law: a log whose transactions all carry address `a`,
/// extended by one more transaction carrying `a`, still only holds
/// transactions addressed to `a` — and none addressed to any other
/// address `b`. Together with the driver contracts, which only ever push
/// transactions carrying the handle's own bound address, this rules out
/// cross-addressing between handles bound to different addresses.
pub proof fn lemma_no_cross_addressing(txns: Seq<Transaction>, txn: Transaction, a: u8, b: u8)
    requires
        all_addressed_to(txns, a),
        txn.addr() == a,
        a != b,
    ensures
        all_addressed_to(txns.push(txn), a),
        forall|i: int| 0 <= i < txns.push(txn).len() ==> (#[trigger] txns.push(txn)[i]).addr()
            != b,
{
    assert forall|i: int| 0 <= i < txns.push(txn).len() implies (#[trigger] txns.push(txn)[i]).addr()
        == a by {
        if i < txns.len() {
            assert(txns.push(txn)[i] == txns[i]);
        } else {
            assert(txns.push(txn)[i] == txn);
        }
    }
}

} // verus!
