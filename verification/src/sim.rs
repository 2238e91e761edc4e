//! A simulated bus transport, verified against the transport contract.
//!
//! The simulator serves reads from a preloaded byte stream, records
//! every completed transaction, and can be switched into a failing mode
//! in which every transaction errors without touching the log. It is the
//! in-crate stand-in for a real bus: tests drive the handle against it
//! and inspect the recorded operations byte for byte.

use vstd::prelude::*;

use crate::transport::BusTransport;
use crate::transport::Transaction;

verus! {

/// The simulated transport's error: a bus failure, or a read request
/// for more bytes than the preloaded stream still holds.
#[derive(Clone, Copy, Debug, PartialEq, Eq)]
pub struct SimError;

/// One recorded operation of the simulated transport, holding the exact
/// bytes written and/or read.
#[derive(Debug, PartialEq, Eq)]
pub enum SimOp {
    /// A plain write of `data` to the device at `addr`.
    Write { addr: u8, data: Vec<u8> },
    /// A plain read from the device at `addr` that returned `data`.
    Read { addr: u8, data: Vec<u8> },
    /// A combined write-then-read at `addr`.
    WriteRead { addr: u8, wdata: Vec<u8>, rdata: Vec<u8> },
}

impl SimOp {
    /// The transaction an operation record stands for.
    pub open spec fn txn(self) -> Transaction {
        match self {
            SimOp::Write { addr, data } => Transaction::Write { addr, data: data@ },
            SimOp::Read { addr, data } => Transaction::Read { addr, data: data@ },
            SimOp::WriteRead { addr, wdata, rdata } => Transaction::WriteRead {
                addr,
                wdata: wdata@,
                rdata: rdata@,
            },
        }
    }
}

/// A simulated bus transport: reads are served from `read_data` in
/// order, and every completed transaction is recorded in `ops`.
pub struct SimTransport {
    /// Bytes the simulated device streams on read requests, oldest first.
    pub read_data: Vec<u8>,
    /// How many bytes of `read_data` have been served already.
    pub served: usize,
    /// When set, every transaction fails and nothing is recorded.
    pub fail: bool,
    /// The completed transactions, oldest first.
    pub ops: Vec<SimOp>,
}

/// Copy `count` bytes of `src` starting at `start` into a fresh vector.
fn copy_range(src: &Vec<u8>, start: usize, count: usize) -> (out: Vec<u8>)
    requires
        start + count <= src@.len(),
    ensures
        out@ == src@.subrange(start as int, start as int + count as int),
{
    let src_len: usize = src.len();
    let mut out: Vec<u8> = Vec::new();
    let mut i: usize = 0;
    while i < count
        invariant
            i <= count,
            src_len == src@.len(),
            start + count <= src@.len(),
            out@ == src@.subrange(start as int, start as int + i as int),
        decreases count - i,
    {
        out.push(src[start + i]);
        proof {
            assert(out@ =~= src@.subrange(start as int, start as int + (i + 1) as int));
        }
        i = i + 1;
    }
    out
}

impl SimTransport {
    /// The transactions recorded so far, as the transport model sees them.
    pub open spec fn recorded(self) -> Seq<Transaction> {
        self.ops@.map(|i: int, op: SimOp| op.txn())
    }

    /// Create a simulated transport that will stream `read_data` on read
    /// requests, with an empty transaction log.
    pub fn new(read_data: Vec<u8>) -> (sim: SimTransport)
        ensures
            sim.read_data == read_data,
            sim.served == 0,
            sim.fail == false,
            sim.log() == Seq::<Transaction>::empty(),
    {
        let sim = SimTransport { read_data, served: 0, fail: false, ops: Vec::new() };
        proof {
            assert(sim.recorded() =~= Seq::<Transaction>::empty());
        }
        sim
    }

    /// Switch the transport into its failing mode: from now on every
    /// transaction reports `SimError` and records nothing.
    pub fn make_failing(&mut self)
        ensures
            final(self).fail == true,
            final(self).read_data == old(self).read_data,
            final(self).served == old(self).served,
            final(self).ops == old(self).ops,
            final(self).log() == old(self).log(),
    {
        self.fail = true;
    }
}

impl BusTransport for SimTransport {
    type Error = SimError;

    open spec fn log(self) -> Seq<Transaction> {
        self.recorded()
    }

    fn write(&mut self, addr: u8, data: &Vec<u8>) -> (result: Result<(), SimError>)
        ensures
            result is Ok <==> !old(self).fail,
            final(self).fail == old(self).fail,
            final(self).read_data == old(self).read_data,
            final(self).served == old(self).served,
    {
        if self.fail {
            return Err(SimError);
        }
        let copy: Vec<u8> = copy_range(data, 0, data.len());
        proof {
            assert(copy@ =~= data@);
        }
        self.ops.push(SimOp::Write { addr, data: copy });
        proof {
            assert(self.recorded() =~= old(self).recorded().push(
                Transaction::Write { addr, data: data@ },
            ));
        }
        Ok(())
    }

    fn read(&mut self, addr: u8, buf: &mut Vec<u8>) -> (result: Result<(), SimError>)
        ensures
            result is Ok <==> !old(self).fail && old(self).served + old(buf)@.len()
                <= old(self).read_data@.len(),
            result is Ok ==> final(buf)@ == old(self).read_data@.subrange(
                old(self).served as int,
                old(self).served + old(buf)@.len(),
            ),
            result is Ok ==> final(self).served == old(self).served + old(buf)@.len(),
            result is Err ==> final(self).served == old(self).served,
            final(self).fail == old(self).fail,
            final(self).read_data == old(self).read_data,
    {
        if self.fail {
            return Err(SimError);
        }
        let count: usize = buf.len();
        if self.served > self.read_data.len() || self.read_data.len() - self.served < count {
            return Err(SimError);
        }
        let chunk: Vec<u8> = copy_range(&self.read_data, self.served, count);
        let filled: Vec<u8> = copy_range(&self.read_data, self.served, count);
        *buf = filled;
        self.served = self.served + count;
        self.ops.push(SimOp::Read { addr, data: chunk });
        proof {
            assert(self.recorded() =~= old(self).recorded().push(
                Transaction::Read { addr, data: buf@ },
            ));
        }
        Ok(())
    }

    fn write_read(&mut self, addr: u8, wdata: &Vec<u8>, buf: &mut Vec<u8>) -> (result: Result<
        (),
        SimError,
    >)
        ensures
            result is Ok <==> !old(self).fail && old(self).served + old(buf)@.len()
                <= old(self).read_data@.len(),
            result is Ok ==> final(buf)@ == old(self).read_data@.subrange(
                old(self).served as int,
                old(self).served + old(buf)@.len(),
            ),
            result is Ok ==> final(self).served == old(self).served + old(buf)@.len(),
            result is Err ==> final(self).served == old(self).served,
            final(self).fail == old(self).fail,
            final(self).read_data == old(self).read_data,
    {
        if self.fail {
            return Err(SimError);
        }
        let count: usize = buf.len();
        if self.served > self.read_data.len() || self.read_data.len() - self.served < count {
            return Err(SimError);
        }
        let wcopy: Vec<u8> = copy_range(wdata, 0, wdata.len());
        proof {
            assert(wcopy@ =~= wdata@);
        }
        let chunk: Vec<u8> = copy_range(&self.read_data, self.served, count);
        let filled: Vec<u8> = copy_range(&self.read_data, self.served, count);
        *buf = filled;
        self.served = self.served + count;
        self.ops.push(SimOp::WriteRead { addr, wdata: wcopy, rdata: chunk });
        proof {
            assert(self.recorded() =~= old(self).recorded().push(
                Transaction::WriteRead { addr, wdata: wdata@, rdata: buf@ },
            ));
        }
        Ok(())
    }
}

} // verus!
