//! The two-wire bus transport interface and its ghost transaction model.
//!
//! The driver is generic over an implementation of [`I2cBus`], the injected
//! dependency that actually moves bytes on the wire.  Every implementation
//! keeps a ghost log of the transactions it has performed, and all the
//! driver's contracts are stated as relations between that log and the
//! values the driver returns.

use vstd::prelude::*;

use crate::FUSB302B_I2C_ADDRESS;

verus! {

/// A failure reported by the underlying two-wire bus implementation.
#[derive(Clone, Copy, Debug, PartialEq, Eq, Structural)]
pub struct BusError {
    /// Implementation-defined code describing the underlying cause.
    pub code: u8,
}

/// One observable interaction with the bus, as recorded in the ghost
/// transaction log of a transport.
pub enum BusOp {
    /// A plain write of `data` to the device at bus address `dev`;
    /// `ok` records whether the transport reported success.
    Write { dev: u8, data: Seq<u8>, ok: bool },
    /// A write of `data` to the device at bus address `dev`, followed by a
    /// read that returned `resp`.  A failed transaction records an empty
    /// response and `ok == false`.
    WriteRead { dev: u8, data: Seq<u8>, resp: Seq<u8>, ok: bool },
    /// A suspension of execution for `ms` milliseconds.
    Delay { ms: u64 },
}

/// The two-wire bus primitives the driver is built on, together with the
/// timed wait used between polling iterations.  Implementations are supplied
/// by the user of the library (a hardware bus, or a simulated one for
/// tests); nothing is assumed about the values a read returns.
pub trait I2cBus: Sized {
    /// The ghost log of every bus interaction performed so far, oldest
    /// first.
    spec fn log(&self) -> Seq<BusOp>;

    /// Writes `data` to the device at bus address `dev`.
    fn write(&mut self, dev: u8, data: &[u8]) -> (r: Result<(), BusError>)
        ensures
            final(self).log() == old(self).log().push(
                BusOp::Write { dev, data: data@, ok: r is Ok },
            ),
    ;

    /// Writes `data` to the device at bus address `dev`, then reads
    /// `read_len` bytes from it in the same transaction.
    fn write_then_read(&mut self, dev: u8, data: &[u8], read_len: usize) -> (r: Result<
        Vec<u8>,
        BusError,
    >)
        ensures
            r matches Ok(v) ==> v@.len() == read_len && final(self).log() == old(self).log().push(
                BusOp::WriteRead { dev, data: data@, resp: v@, ok: true },
            ),
            r is Err ==> final(self).log() == old(self).log().push(
                BusOp::WriteRead { dev, data: data@, resp: Seq::empty(), ok: false },
            ),
    ;

    /// Suspends execution for `ms` milliseconds, yielding control to the
    /// caller's scheduler in the meantime.
    fn delay_ms(&mut self, ms: u64)
        ensures
            final(self).log() == old(self).log().push(BusOp::Delay { ms }),
    ;
}

/// The transaction a successful one-byte register write puts on the bus:
/// the register address followed by the value.
pub open spec fn reg_write_op(address: u8, value: u8, ok: bool) -> BusOp {
    BusOp::Write { dev: FUSB302B_I2C_ADDRESS, data: seq![address, value], ok }
}

/// The transaction a successful one-byte register read puts on the bus:
/// the register address written, one byte read back.
pub open spec fn reg_read_op(address: u8, value: u8) -> BusOp {
    BusOp::WriteRead {
        dev: FUSB302B_I2C_ADDRESS,
        data: seq![address],
        resp: seq![value],
        ok: true,
    }
}

/// The transaction a failed register read records.
pub open spec fn failed_reg_read_op(address: u8) -> BusOp {
    BusOp::WriteRead {
        dev: FUSB302B_I2C_ADDRESS,
        data: seq![address],
        resp: Seq::empty(),
        ok: false,
    }
}

/// Whether `op` is a one-byte register write to `address` (successful or
/// not).  Frame writes to the FIFO carry more than one data byte and are
/// never register writes.
pub open spec fn is_reg_write(op: BusOp, address: u8) -> bool {
    match op {
        BusOp::Write { dev, data, ok } => dev == FUSB302B_I2C_ADDRESS && data.len() == 2
            && data[0] == address,
        _ => false,
    }
}

/// Whether `op` is a successful one-byte read of register `address`.
pub open spec fn is_reg_read(op: BusOp, address: u8) -> bool {
    match op {
        BusOp::WriteRead { dev, data, resp, ok } => ok && dev == FUSB302B_I2C_ADDRESS
            && data.len() == 1 && data[0] == address && resp.len() == 1,
        _ => false,
    }
}

/// The value carried by a register write operation.
pub open spec fn reg_write_value(op: BusOp) -> u8 {
    match op {
        BusOp::Write { data, .. } => data[1],
        _ => 0,
    }
}

/// Whether a register write operation was reported successful.
pub open spec fn op_ok(op: BusOp) -> bool {
    match op {
        BusOp::Write { ok, .. } => ok,
        BusOp::WriteRead { ok, .. } => ok,
        BusOp::Delay { .. } => true,
    }
}

/// The value returned by a successful one-byte register read operation.
pub open spec fn reg_read_value(op: BusOp) -> u8 {
    match op {
        BusOp::WriteRead { resp, .. } => resp[0],
        _ => 0,
    }
}

/// The values of all one-byte register writes to `address` in `log`, oldest
/// first, successful or not.
pub open spec fn writes_to_reg(log: Seq<BusOp>, address: u8) -> Seq<u8>
    decreases log.len(),
{
    if log.len() == 0 {
        Seq::empty()
    } else {
        let rest = writes_to_reg(log.drop_last(), address);
        if is_reg_write(log.last(), address) {
            rest.push(reg_write_value(log.last()))
        } else {
            rest
        }
    }
}

/// The register-file contents at `address` after replaying every successful
/// register write of `log` over an all-zero reset state.  This is the memory
/// a bus attached to a plain register-file device would expose.
pub open spec fn mem_after(log: Seq<BusOp>, address: u8) -> u8
    decreases log.len(),
{
    if log.len() == 0 {
        0
    } else if is_reg_write(log.last(), address) && op_ok(log.last()) {
        reg_write_value(log.last())
    } else {
        mem_after(log.drop_last(), address)
    }
}

/// Law: on a register-file bus, writing a register twice and then reading
/// it back returns the value written last; in particular, writing the same
/// value twice reads that value back.  The two pushed operations are
/// exactly what two successful register writes append to the log, and
/// [`mem_after`] is what a register-file device then serves to a read.
pub proof fn lemma_register_write_read_round_trip(log: Seq<BusOp>, address: u8, v1: u8, v2: u8)
    ensures
        mem_after(log.push(reg_write_op(address, v1, true)).push(reg_write_op(address, v2, true)), address)
            == v2,
{
    let l2 = log.push(reg_write_op(address, v1, true)).push(reg_write_op(address, v2, true));
    assert(l2.last() == reg_write_op(address, v2, true));
}

/// Law: reading a register does not disturb the register file; what a
/// register-file bus serves is unchanged by any read transaction.
pub proof fn lemma_read_preserves_mem(log: Seq<BusOp>, read_address: u8, value: u8, address: u8)
    ensures
        mem_after(log.push(reg_read_op(read_address, value)), address) == mem_after(log, address),
{
    let l2 = log.push(reg_read_op(read_address, value));
    assert(l2.drop_last() =~= log);
}

} // verus!
