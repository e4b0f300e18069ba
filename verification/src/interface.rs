//! The register- and buffer-level interface over the raw two-wire bus.
//!
//! [`DeviceInterface`] turns one-byte register reads and writes, and
//! variable-length FIFO transfers, into single bus transactions addressed to
//! the chip.  Writes are staged together with the register address in a
//! fixed-size buffer; a payload that does not fit is rejected before the bus
//! is touched.

use vstd::prelude::*;

use crate::FUSB302B_I2C_ADDRESS;
use crate::bus::{BusOp, I2cBus, failed_reg_read_op, reg_read_op, reg_write_op};
use crate::error::FusbError;

verus! {

/// The staging capacity of a register write transaction: the register
/// address plus at most four data bytes.
pub const REG_WRITE_CAPACITY: usize = 5;

/// The staging capacity of a FIFO write transaction: the FIFO address plus
/// at most 63 data bytes.
pub const BUFFER_WRITE_CAPACITY: usize = 64;

/// The register- and buffer-level access layer over a two-wire bus.
pub struct DeviceInterface<B: I2cBus> {
    i2c: B,
}

impl<B: I2cBus> DeviceInterface<B> {
    /// The transaction log of the underlying bus.
    pub closed spec fn log(&self) -> Seq<BusOp> {
        self.i2c.log()
    }

    /// Wraps a two-wire bus.
    pub fn new(i2c: B) -> (r: Self)
        ensures
            r.log() == i2c.log(),
    {
        DeviceInterface { i2c }
    }

    /// A shared borrow of the underlying bus.
    pub fn bus(&self) -> (r: &B)
        ensures
            r.log() == self.log(),
    {
        &self.i2c
    }

    /// Reads the one-byte register at `address` in a single bus
    /// transaction.  A transport failure is forwarded unchanged.
    pub fn read_register(&mut self, address: u8) -> (r: Result<u8, FusbError>)
        ensures
            r matches Ok(v) ==> final(self).log() == old(self).log().push(
                reg_read_op(address, v),
            ),
            r matches Err(e) ==> e matches FusbError::I2c(_) && final(self).log() == old(
                self,
            ).log().push(failed_reg_read_op(address)),
    {
        let mut cmd: Vec<u8> = Vec::new();
        cmd.push(address);
        proof {
            assert(cmd@ =~= seq![address]);
        }
        match self.i2c.write_then_read(FUSB302B_I2C_ADDRESS, cmd.as_slice(), 1) {
            Ok(resp) => {
                let v = resp[0];
                proof {
                    assert(resp@ =~= seq![v]);
                }
                Ok(v)
            },
            Err(e) => Err(FusbError::I2c(e)),
        }
    }

    /// Writes `data` to the register at `address` in a single bus
    /// transaction.  A payload that does not fit in the staging buffer is
    /// rejected with [`FusbError::LenExceedsBuffer`] before the bus is
    /// touched; a transport failure is forwarded unchanged.
    pub fn write_register(&mut self, address: u8, data: &[u8]) -> (r: Result<(), FusbError>)
        ensures
            1 + data@.len() > REG_WRITE_CAPACITY ==> r == Err::<(), FusbError>(
                FusbError::LenExceedsBuffer,
            ) && final(self).log() == old(self).log(),
            1 + data@.len() <= REG_WRITE_CAPACITY ==> final(self).log() == old(self).log().push(
                BusOp::Write {
                    dev: FUSB302B_I2C_ADDRESS,
                    data: seq![address] + data@,
                    ok: r is Ok,
                },
            ),
            1 + data@.len() <= REG_WRITE_CAPACITY ==> (r matches Err(e) ==> e matches
                FusbError::I2c(_)),
    {
        if data.len() >= REG_WRITE_CAPACITY {
            return Err(FusbError::LenExceedsBuffer);
        }
        let mut buffer: Vec<u8> = Vec::new();
        buffer.push(address);
        buffer.extend_from_slice(data);
        proof {
            assert(buffer@ =~= seq![address] + data@);
        }
        match self.i2c.write(FUSB302B_I2C_ADDRESS, buffer.as_slice()) {
            Ok(()) => Ok(()),
            Err(e) => Err(FusbError::I2c(e)),
        }
    }

    /// Streams `buf` to the FIFO channel at `address` in a single bus
    /// transaction, returning how many bytes were moved.  A payload that
    /// does not fit in the staging buffer is rejected with
    /// [`FusbError::LenExceedsBuffer`] before the bus is touched.
    pub fn write_buffer(&mut self, address: u8, buf: &[u8]) -> (r: Result<usize, FusbError>)
        ensures
            1 + buf@.len() > BUFFER_WRITE_CAPACITY ==> r == Err::<usize, FusbError>(
                FusbError::LenExceedsBuffer,
            ) && final(self).log() == old(self).log(),
            1 + buf@.len() <= BUFFER_WRITE_CAPACITY ==> final(self).log() == old(self).log().push(
                BusOp::Write {
                    dev: FUSB302B_I2C_ADDRESS,
                    data: seq![address] + buf@,
                    ok: r is Ok,
                },
            ),
            r matches Ok(n) ==> n == buf@.len(),
            1 + buf@.len() <= BUFFER_WRITE_CAPACITY ==> (r matches Err(e) ==> e matches
                FusbError::I2c(_)),
    {
        if buf.len() >= BUFFER_WRITE_CAPACITY {
            return Err(FusbError::LenExceedsBuffer);
        }
        let mut buffer: Vec<u8> = Vec::new();
        buffer.push(address);
        buffer.extend_from_slice(buf);
        proof {
            assert(buffer@ =~= seq![address] + buf@);
        }
        match self.i2c.write(FUSB302B_I2C_ADDRESS, buffer.as_slice()) {
            Ok(()) => Ok(buf.len()),
            Err(e) => Err(FusbError::I2c(e)),
        }
    }

    /// Reads `read_len` bytes from the FIFO channel at `address` in a
    /// single bus transaction.
    pub fn read_buffer(&mut self, address: u8, read_len: usize) -> (r: Result<Vec<u8>, FusbError>)
        ensures
            r matches Ok(v) ==> v@.len() == read_len && final(self).log() == old(self).log().push(
                BusOp::WriteRead {
                    dev: FUSB302B_I2C_ADDRESS,
                    data: seq![address],
                    resp: v@,
                    ok: true,
                },
            ),
            r matches Err(e) ==> e matches FusbError::I2c(_) && final(self).log() == old(
                self,
            ).log().push(
                BusOp::WriteRead {
                    dev: FUSB302B_I2C_ADDRESS,
                    data: seq![address],
                    resp: Seq::empty(),
                    ok: false,
                },
            ),
    {
        let mut cmd: Vec<u8> = Vec::new();
        cmd.push(address);
        proof {
            assert(cmd@ =~= seq![address]);
        }
        match self.i2c.write_then_read(FUSB302B_I2C_ADDRESS, cmd.as_slice(), read_len) {
            Ok(resp) => Ok(resp),
            Err(e) => Err(FusbError::I2c(e)),
        }
    }

    /// Flushes the buffer channel.  The chip drains its FIFOs through
    /// register bits instead, so this performs no bus transaction.
    pub fn flush_buffer(&mut self, address: u8) -> (r: Result<(), FusbError>)
        ensures
            r is Ok,
            final(self).log() == old(self).log(),
    {
        let _ = address;
        Ok(())
    }

    /// Suspends execution for `ms` milliseconds between polling
    /// iterations.
    pub fn delay_ms(&mut self, ms: u64)
        ensures
            final(self).log() == old(self).log().push(BusOp::Delay { ms }),
    {
        self.i2c.delay_ms(ms);
    }
}

} // verus!
