//! The ADM1191 device handle.
//!
//! The handle binds an exclusively owned bus transport to a 7-bit device
//! address, fixed for the handle's lifetime, and exposes the IC's
//! register-access protocol. It holds no other state: nothing is
//! buffered or cached, and the device's own idle/continuous mode is not
//! tracked locally.

use vstd::prelude::*;

use crate::codec::CONTINUOUS_VOLT_CURRENT_COMMAND;
use crate::codec::STATUS_READ_COMMAND;
use crate::codec::frame_current;
use crate::codec::frame_voltage;
use crate::codec::decode_sample;
use crate::transport::BusTransport;
use crate::transport::Transaction;

verus! {

/// Driver handle for the ADM1191 power monitor: the exclusively owned
/// bus transport together with the bound 7-bit device address.
pub struct Adm1191<I2C> {
    i2c: I2C,
    addr: u8,
}

impl<I2C: BusTransport> Adm1191<I2C> {
    /// The bus transport the handle owns.
    pub closed spec fn transport(self) -> I2C {
        self.i2c
    }

    /// The device address every transaction of this handle is directed at.
    pub closed spec fn address(self) -> u8 {
        self.addr
    }

    /// Create a handle over the given bus transport and device address.
    ///
    /// No bus I/O is performed: the handle always comes back `Ok`,
    /// immediately usable, owning exactly the transport passed in. The
    /// fallible signature leaves room for future validation.
    pub fn new(i2c: I2C, addr: u8) -> (result: Result<Self, I2C::Error>)
        ensures
            result matches Ok(handle) && handle.transport() == i2c && handle.address() == addr,
    {
        Ok(Adm1191 { i2c, addr })
    }

    /// Consume the handle and hand the bus transport back unchanged: no
    /// bytes are sent to the device during teardown.
    pub fn destroy(self) -> (bus: I2C)
        ensures
            bus == self.transport(),
            bus.log() == self.transport().log(),
    {
        self.i2c
    }

    /// Write one command byte to the device address as a plain write.
    fn write_command_code(&mut self, cmd: u8) -> (result: Result<(), I2C::Error>)
        ensures
            final(self).address() == old(self).address(),
            result is Ok ==> final(self).transport().log() == old(self).transport().log().push(
                Transaction::Write { addr: old(self).address(), data: seq![cmd] },
            ),
            result is Err ==> final(self).transport().log() == old(self).transport().log(),
    {
        let mut data: Vec<u8> = Vec::new();
        data.push(cmd);
        proof {
            assert(data@ =~= seq![cmd]);
        }
        self.i2c.write(self.addr, &data)
    }

    /// Read the raw status byte: write the status-register select code
    /// `0x40`, then read one byte back in the same transaction. The byte
    /// is an opaque bitfield, passed through for the caller to interpret;
    /// any transport failure is surfaced unchanged.
    pub fn read_status(&mut self) -> (result: Result<u8, I2C::Error>)
        ensures
            final(self).address() == old(self).address(),
            result matches Ok(status) ==> final(self).transport().log() == old(
                self,
            ).transport().log().push(
                Transaction::WriteRead {
                    addr: old(self).address(),
                    wdata: seq![STATUS_READ_COMMAND],
                    rdata: seq![status],
                },
            ),
            result is Err ==> final(self).transport().log() == old(self).transport().log(),
    {
        let mut wdata: Vec<u8> = Vec::new();
        wdata.push(STATUS_READ_COMMAND);
        let mut buf: Vec<u8> = Vec::new();
        buf.push(0u8);
        match self.i2c.write_read(self.addr, &wdata, &mut buf) {
            Ok(()) => {
                let status: u8 = buf[0];
                proof {
                    assert(wdata@ =~= seq![STATUS_READ_COMMAND]);
                    assert(buf@ =~= seq![status]);
                }
                Ok(status)
            },
            Err(e) => Err(e),
        }
    }

    /// Start continuous voltage and current conversion: write the single
    /// command byte `0x15` (current enable | voltage enable | continuous
    /// enable). No confirmation read is performed; any transport failure
    /// is surfaced unchanged.
    pub fn continuous_volt_current(&mut self) -> (result: Result<(), I2C::Error>)
        ensures
            final(self).address() == old(self).address(),
            result is Ok ==> final(self).transport().log() == old(self).transport().log().push(
                Transaction::Write {
                    addr: old(self).address(),
                    data: seq![CONTINUOUS_VOLT_CURRENT_COMMAND],
                },
            ),
            result is Err ==> final(self).transport().log() == old(self).transport().log(),
    {
        self.write_command_code(CONTINUOUS_VOLT_CURRENT_COMMAND)
    }

    /// Read one sample pair: read exactly 3 bytes from the device (no
    /// write phase) and decode the 12-bit voltage and current from the
    /// frame. On success the result is exactly the decoding of the 3-byte
    /// frame that the transport's log records for this read; a transport
    /// failure — including a transport that cannot deliver all 3 bytes —
    /// is surfaced unchanged, never a partially decoded result.
    pub fn read_volt_current(&mut self) -> (result: Result<(u16, u16), I2C::Error>)
        ensures
            final(self).address() == old(self).address(),
            result matches Ok(sample) ==> {
                &&& sample.0 <= 0xFFF
                &&& sample.1 <= 0xFFF
                &&& exists|frame: Seq<u8>|
                    #![auto]
                    frame.len() == 3 && final(self).transport().log() == old(
                        self,
                    ).transport().log().push(
                        Transaction::Read { addr: old(self).address(), data: frame },
                    ) && sample.0 == frame_voltage(frame) && sample.1 == frame_current(frame)
            },
            result is Err ==> final(self).transport().log() == old(self).transport().log(),
    {
        let mut buf: Vec<u8> = Vec::new();
        buf.push(0u8);
        buf.push(0u8);
        buf.push(0u8);
        match self.i2c.read(self.addr, &mut buf) {
            Ok(()) => {
                let sample: (u16, u16) = decode_sample(buf[0], buf[1], buf[2]);
                proof {
                    assert(buf@ =~= seq![buf@[0], buf@[1], buf@[2]]);
                    assert(sample.0 == frame_voltage(buf@));
                    assert(sample.1 == frame_current(buf@));
                }
                Ok(sample)
            },
            Err(e) => Err(e),
        }
    }
}

} // verus!
