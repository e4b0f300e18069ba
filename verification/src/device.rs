//! The register map and the typed, access-mode-checked register operations.
//!
//! [`Register`] is the declarative table of the chip's registers: each entry
//! has an address and an access mode.  [`Device`] exposes one accessor per
//! register, which yields a typed [`RegisterOperation`], and a single
//! generic read/write routine consumed by all of them.  Reading a
//! write-only register, or writing a read-only one, fails before the bus is
//! touched.

use vstd::prelude::*;

use crate::bus::{BusOp, I2cBus, failed_reg_read_op, reg_read_op, reg_write_op};
use crate::error::FusbError;
use crate::field_sets::{
    FieldSet, FieldSetValue, DeviceId, Switches0, Switches1, Measure, Slice, Control0, Control1,
    Control2, Control3, Mask, Power, Reset, Ocpreg, Maska, Maskb, Control4, Status0A, Status1A,
    Interrupta, Interruptb, Status0, Status1, Interrupt,
};
use crate::driver::{lemma_track, new_ops, ops_all_ok};
use crate::bus::{is_reg_read, reg_read_value};
use crate::interface::DeviceInterface;

verus! {

/// The bus address of the chip's TX/RX FIFO channel.
pub const FIFO_ADDRESS: u8 = 67;

/// The chip's registers: a sparse table of one-byte cells, each with a
/// fixed address and an immutable access mode.
#[derive(Clone, Copy, Debug, PartialEq, Eq, Structural)]
pub enum Register {
    /// Device Identification Register (read-only).
    DeviceId,
    /// Switch Control Register 0 (read-write).
    Switches0,
    /// Switch Control Register 1 (read-write).
    Switches1,
    /// Measure Control Register (read-write).
    Measure,
    /// Slice Control Register (read-write).
    Slice,
    /// Control Register 0 (read-write).
    Control0,
    /// Control Register 1 (read-write).
    Control1,
    /// Control Register 2 (read-write).
    Control2,
    /// Control Register 3 (read-write).
    Control3,
    /// Interrupt Mask Register (read-write).
    Mask,
    /// Power Control Register (read-write).
    Power,
    /// Reset Control Register (write-only).
    Reset,
    /// Over-Current Protection Register (read-write).
    Ocpreg,
    /// Interrupt Mask Register A (read-write).
    Maska,
    /// Interrupt Mask Register B (read-write).
    Maskb,
    /// Control Register 4 (read-write).
    Control4,
    /// Status Register 0A (read-only).
    Status0A,
    /// Status Register 1A (read-only).
    Status1A,
    /// Interrupt Register A (read-write, read to observe, write to clear).
    Interrupta,
    /// Interrupt Register B (read-write, read to observe, write to clear).
    Interruptb,
    /// Status Register 0 (read-only).
    Status0,
    /// Status Register 1 (read-only).
    Status1,
    /// Interrupt Status Register (read-write, read to observe, write to
    /// clear).
    Interrupt,
}

impl Register {
    /// The bus address of the register.
    pub open spec fn spec_address(self) -> u8 {
        match self {
            Register::DeviceId => 1,
            Register::Switches0 => 2,
            Register::Switches1 => 3,
            Register::Measure => 4,
            Register::Slice => 5,
            Register::Control0 => 6,
            Register::Control1 => 7,
            Register::Control2 => 8,
            Register::Control3 => 9,
            Register::Mask => 10,
            Register::Power => 11,
            Register::Reset => 12,
            Register::Ocpreg => 13,
            Register::Maska => 14,
            Register::Maskb => 15,
            Register::Control4 => 16,
            Register::Status0A => 60,
            Register::Status1A => 61,
            Register::Interrupta => 62,
            Register::Interruptb => 63,
            Register::Status0 => 64,
            Register::Status1 => 65,
            Register::Interrupt => 66,
        }
    }

    /// The bus address of the register.
    #[verifier::when_used_as_spec(spec_address)]
    pub fn address(self) -> (a: u8)
        ensures
            a == self.spec_address(),
    {
        match self {
            Register::DeviceId => 1,
            Register::Switches0 => 2,
            Register::Switches1 => 3,
            Register::Measure => 4,
            Register::Slice => 5,
            Register::Control0 => 6,
            Register::Control1 => 7,
            Register::Control2 => 8,
            Register::Control3 => 9,
            Register::Mask => 10,
            Register::Power => 11,
            Register::Reset => 12,
            Register::Ocpreg => 13,
            Register::Maska => 14,
            Register::Maskb => 15,
            Register::Control4 => 16,
            Register::Status0A => 60,
            Register::Status1A => 61,
            Register::Interrupta => 62,
            Register::Interruptb => 63,
            Register::Status0 => 64,
            Register::Status1 => 65,
            Register::Interrupt => 66,
        }
    }

    /// Whether the register's access mode permits reading.
    pub open spec fn spec_readable(self) -> bool {
        !(self is Reset)
    }

    /// Whether the register's access mode permits reading.
    #[verifier::when_used_as_spec(spec_readable)]
    pub fn readable(self) -> (r: bool)
        ensures
            r == self.spec_readable(),
    {
        !matches!(self, Register::Reset)
    }

    /// Whether the register's access mode permits writing.
    pub open spec fn spec_writable(self) -> bool {
        !(self is DeviceId || self is Status0A || self is Status1A || self is Status0
            || self is Status1)
    }

    /// Whether the register's access mode permits writing.
    #[verifier::when_used_as_spec(spec_writable)]
    pub fn writable(self) -> (r: bool)
        ensures
            r == self.spec_writable(),
    {
        !matches!(
            self,
            Register::DeviceId | Register::Status0A | Register::Status1A | Register::Status0
                | Register::Status1
        )
    }
}

/// A typed operation handle for one register: it names the register and the
/// field-set type its byte content decodes to.
pub struct RegisterOperation<FS: FieldSet> {
    reg: Register,
    marker: core::marker::PhantomData<FS>,
}

impl<FS: FieldSet> RegisterOperation<FS> {
    /// The register this operation addresses.
    pub closed spec fn spec_reg(self) -> Register {
        self.reg
    }

    /// The register this operation addresses.
    #[verifier::when_used_as_spec(spec_reg)]
    pub fn reg(self) -> (r: Register)
        ensures
            r == self.spec_reg(),
    {
        self.reg
    }

    pub(crate) fn for_register(reg: Register) -> (r: Self)
        ensures
            r.spec_reg() == reg,
    {
        RegisterOperation { reg, marker: core::marker::PhantomData }
    }
}

impl<FS: FieldSet> Clone for RegisterOperation<FS> {
    fn clone(&self) -> (r: Self)
        ensures
            r.spec_reg() == self.spec_reg(),
    {
        RegisterOperation { reg: self.reg, marker: core::marker::PhantomData }
    }
}

impl<FS: FieldSet> Copy for RegisterOperation<FS> {

}

/// An operation handle for the chip's FIFO buffer channel.
#[derive(Clone, Copy)]
pub struct BufferOperation {
    address: u8,
}

impl BufferOperation {
    /// The bus address of the buffer channel.
    pub closed spec fn spec_address(self) -> u8 {
        self.address
    }

    /// The bus address of the buffer channel.
    #[verifier::when_used_as_spec(spec_address)]
    pub fn address(self) -> (a: u8)
        ensures
            a == self.spec_address(),
    {
        self.address
    }
}

/// The low-level device: one accessor per register of the register map,
/// plus the generic read/write routine they all share.
pub struct Device<B: I2cBus> {
    interface: DeviceInterface<B>,
}

impl<B: I2cBus> Device<B> {
    /// The transaction log of the underlying bus.
    pub closed spec fn log(&self) -> Seq<BusOp> {
        self.interface.log()
    }

    /// Creates a new instance of the device based on a device interface.
    pub fn new(interface: DeviceInterface<B>) -> (r: Self)
        ensures
            r.log() == interface.log(),
    {
        Device { interface }
    }

    /// A shared borrow of the device interface.
    pub fn interface(&self) -> (r: &DeviceInterface<B>)
        ensures
            r.log() == self.log(),
    {
        &self.interface
    }

    /// Reads the register addressed by `op` in one bus transaction and
    /// decodes its byte into the register's field-set type.  Reading a
    /// register whose access mode forbids it fails with
    /// [`FusbError::NotSupported`] before the bus is touched.
    pub fn read<FS: FieldSet>(&mut self, op: RegisterOperation<FS>) -> (r: Result<FS, FusbError>)
        ensures
            !op.spec_reg().spec_readable() ==> (r matches Err(e) && e == FusbError::NotSupported
                && final(self).log() == old(self).log()),
            r matches Ok(fs) ==> op.spec_reg().spec_readable() && final(self).log() == old(
                self,
            ).log().push(reg_read_op(op.spec_reg().spec_address(), fs.raw())),
            op.spec_reg().spec_readable() && (r matches Err(e) ==> e matches FusbError::I2c(_)
                && final(self).log() == old(self).log().push(
                failed_reg_read_op(op.spec_reg().spec_address()),
            )) || !op.spec_reg().spec_readable(),
    {
        if !op.reg().readable() {
            return Err(FusbError::NotSupported);
        }
        match self.interface.read_register(op.reg().address()) {
            Ok(byte) => Ok(FS::from_byte(byte)),
            Err(e) => Err(e),
        }
    }

    /// Encodes `value` and writes it to the register addressed by `op` in
    /// one bus transaction.  Writing a register whose access mode forbids
    /// it fails with [`FusbError::NotSupported`] before the bus is touched.
    pub fn write<FS: FieldSet>(&mut self, op: RegisterOperation<FS>, value: FS) -> (r: Result<
        (),
        FusbError,
    >)
        ensures
            !op.spec_reg().spec_writable() ==> (r matches Err(e) && e == FusbError::NotSupported
                && final(self).log() == old(self).log()),
            op.spec_reg().spec_writable() ==> final(self).log() == old(self).log().push(
                reg_write_op(op.spec_reg().spec_address(), value.raw(), r is Ok),
            ),
            op.spec_reg().spec_writable() ==> (r matches Err(e) ==> e matches FusbError::I2c(_)),
    {
        if !op.reg().writable() {
            return Err(FusbError::NotSupported);
        }
        let byte = value.to_byte();
        let data: [u8; 1] = [byte];
        proof {
            assert(seq![op.spec_reg().spec_address()] + data@ =~= seq![
                op.spec_reg().spec_address(),
                value.raw(),
            ]);
        }
        match self.interface.write_register(op.reg().address(), data.as_slice()) {
            Ok(()) => Ok(()),
            Err(e) => Err(e),
        }
    }

    /// Reads every readable register once, in address order, and returns
    /// each register's address together with its decoded snapshot.  This
    /// is a diagnostics convenience; the write-only reset register cannot
    /// be read and is skipped.
    ///
    /// On success the suffix of bus operations is exactly the 22 register
    /// reads in address order, and each returned pair carries that
    /// register's address and the byte the bus served; an error is
    /// returned only when some transaction failed, and it is the
    /// forwarded transport error.
    #[verifier::rlimit(40)]
    pub fn read_all_registers(&mut self) -> (r: Result<Vec<(u8, FieldSetValue)>, FusbError>)
        ensures
            old(self).log().is_prefix_of(final(self).log()),
            r matches Err(e) ==> e matches FusbError::I2c(_) && !ops_all_ok(
                new_ops(old(self).log(), final(self).log()),
            ),
            r matches Ok(v) ==> ({
                let s = new_ops(old(self).log(), final(self).log());
                &&& s.len() == 22
                &&& v@.len() == 22
                    &&& v@[0].0 == 1u8
                    &&& is_reg_read(s[0], 1)
                    &&& v@[0].1.spec_register() == Register::DeviceId
                    &&& v@[0].1.spec_raw() == reg_read_value(s[0])
                    &&& v@[1].0 == 2u8
                    &&& is_reg_read(s[1], 2)
                    &&& v@[1].1.spec_register() == Register::Switches0
                    &&& v@[1].1.spec_raw() == reg_read_value(s[1])
                    &&& v@[2].0 == 3u8
                    &&& is_reg_read(s[2], 3)
                    &&& v@[2].1.spec_register() == Register::Switches1
                    &&& v@[2].1.spec_raw() == reg_read_value(s[2])
                    &&& v@[3].0 == 4u8
                    &&& is_reg_read(s[3], 4)
                    &&& v@[3].1.spec_register() == Register::Measure
                    &&& v@[3].1.spec_raw() == reg_read_value(s[3])
                    &&& v@[4].0 == 5u8
                    &&& is_reg_read(s[4], 5)
                    &&& v@[4].1.spec_register() == Register::Slice
                    &&& v@[4].1.spec_raw() == reg_read_value(s[4])
                    &&& v@[5].0 == 6u8
                    &&& is_reg_read(s[5], 6)
                    &&& v@[5].1.spec_register() == Register::Control0
                    &&& v@[5].1.spec_raw() == reg_read_value(s[5])
                    &&& v@[6].0 == 7u8
                    &&& is_reg_read(s[6], 7)
                    &&& v@[6].1.spec_register() == Register::Control1
                    &&& v@[6].1.spec_raw() == reg_read_value(s[6])
                    &&& v@[7].0 == 8u8
                    &&& is_reg_read(s[7], 8)
                    &&& v@[7].1.spec_register() == Register::Control2
                    &&& v@[7].1.spec_raw() == reg_read_value(s[7])
                    &&& v@[8].0 == 9u8
                    &&& is_reg_read(s[8], 9)
                    &&& v@[8].1.spec_register() == Register::Control3
                    &&& v@[8].1.spec_raw() == reg_read_value(s[8])
                    &&& v@[9].0 == 10u8
                    &&& is_reg_read(s[9], 10)
                    &&& v@[9].1.spec_register() == Register::Mask
                    &&& v@[9].1.spec_raw() == reg_read_value(s[9])
                    &&& v@[10].0 == 11u8
                    &&& is_reg_read(s[10], 11)
                    &&& v@[10].1.spec_register() == Register::Power
                    &&& v@[10].1.spec_raw() == reg_read_value(s[10])
                    &&& v@[11].0 == 13u8
                    &&& is_reg_read(s[11], 13)
                    &&& v@[11].1.spec_register() == Register::Ocpreg
                    &&& v@[11].1.spec_raw() == reg_read_value(s[11])
                    &&& v@[12].0 == 14u8
                    &&& is_reg_read(s[12], 14)
                    &&& v@[12].1.spec_register() == Register::Maska
                    &&& v@[12].1.spec_raw() == reg_read_value(s[12])
                    &&& v@[13].0 == 15u8
                    &&& is_reg_read(s[13], 15)
                    &&& v@[13].1.spec_register() == Register::Maskb
                    &&& v@[13].1.spec_raw() == reg_read_value(s[13])
                    &&& v@[14].0 == 16u8
                    &&& is_reg_read(s[14], 16)
                    &&& v@[14].1.spec_register() == Register::Control4
                    &&& v@[14].1.spec_raw() == reg_read_value(s[14])
                    &&& v@[15].0 == 60u8
                    &&& is_reg_read(s[15], 60)
                    &&& v@[15].1.spec_register() == Register::Status0A
                    &&& v@[15].1.spec_raw() == reg_read_value(s[15])
                    &&& v@[16].0 == 61u8
                    &&& is_reg_read(s[16], 61)
                    &&& v@[16].1.spec_register() == Register::Status1A
                    &&& v@[16].1.spec_raw() == reg_read_value(s[16])
                    &&& v@[17].0 == 62u8
                    &&& is_reg_read(s[17], 62)
                    &&& v@[17].1.spec_register() == Register::Interrupta
                    &&& v@[17].1.spec_raw() == reg_read_value(s[17])
                    &&& v@[18].0 == 63u8
                    &&& is_reg_read(s[18], 63)
                    &&& v@[18].1.spec_register() == Register::Interruptb
                    &&& v@[18].1.spec_raw() == reg_read_value(s[18])
                    &&& v@[19].0 == 64u8
                    &&& is_reg_read(s[19], 64)
                    &&& v@[19].1.spec_register() == Register::Status0
                    &&& v@[19].1.spec_raw() == reg_read_value(s[19])
                    &&& v@[20].0 == 65u8
                    &&& is_reg_read(s[20], 65)
                    &&& v@[20].1.spec_register() == Register::Status1
                    &&& v@[20].1.spec_raw() == reg_read_value(s[20])
                    &&& v@[21].0 == 66u8
                    &&& is_reg_read(s[21], 66)
                    &&& v@[21].1.spec_register() == Register::Interrupt
                    &&& v@[21].1.spec_raw() == reg_read_value(s[21])
            }),
    {
        let ghost pre = self.log();
        proof {
            assert(new_ops(pre, self.log()) =~= Seq::<BusOp>::empty());
            assert(pre.is_prefix_of(self.log())) by {
                assert(self.log().subrange(0, pre.len() as int) =~= pre);
            }
        }
        let mut out: Vec<(u8, FieldSetValue)> = Vec::new();
        let ghost b = self.log();
        let op = self.device_id();
        let reg = self.read(op);
        proof {
            lemma_track(pre, b, self.log(), self.log().last());
        }
        match reg {
            Ok(v) => out.push((Register::DeviceId.address(), FieldSetValue::DeviceId(v))),
            Err(e) => {
                return Err(e);
            },
        }
        let ghost b = self.log();
        let op = self.switches_0();
        let reg = self.read(op);
        proof {
            lemma_track(pre, b, self.log(), self.log().last());
        }
        match reg {
            Ok(v) => out.push((Register::Switches0.address(), FieldSetValue::Switches0(v))),
            Err(e) => {
                return Err(e);
            },
        }
        let ghost b = self.log();
        let op = self.switches_1();
        let reg = self.read(op);
        proof {
            lemma_track(pre, b, self.log(), self.log().last());
        }
        match reg {
            Ok(v) => out.push((Register::Switches1.address(), FieldSetValue::Switches1(v))),
            Err(e) => {
                return Err(e);
            },
        }
        let ghost b = self.log();
        let op = self.measure();
        let reg = self.read(op);
        proof {
            lemma_track(pre, b, self.log(), self.log().last());
        }
        match reg {
            Ok(v) => out.push((Register::Measure.address(), FieldSetValue::Measure(v))),
            Err(e) => {
                return Err(e);
            },
        }
        let ghost b = self.log();
        let op = self.slice();
        let reg = self.read(op);
        proof {
            lemma_track(pre, b, self.log(), self.log().last());
        }
        match reg {
            Ok(v) => out.push((Register::Slice.address(), FieldSetValue::Slice(v))),
            Err(e) => {
                return Err(e);
            },
        }
        let ghost b = self.log();
        let op = self.control_0();
        let reg = self.read(op);
        proof {
            lemma_track(pre, b, self.log(), self.log().last());
        }
        match reg {
            Ok(v) => out.push((Register::Control0.address(), FieldSetValue::Control0(v))),
            Err(e) => {
                return Err(e);
            },
        }
        let ghost b = self.log();
        let op = self.control_1();
        let reg = self.read(op);
        proof {
            lemma_track(pre, b, self.log(), self.log().last());
        }
        match reg {
            Ok(v) => out.push((Register::Control1.address(), FieldSetValue::Control1(v))),
            Err(e) => {
                return Err(e);
            },
        }
        let ghost b = self.log();
        let op = self.control_2();
        let reg = self.read(op);
        proof {
            lemma_track(pre, b, self.log(), self.log().last());
        }
        match reg {
            Ok(v) => out.push((Register::Control2.address(), FieldSetValue::Control2(v))),
            Err(e) => {
                return Err(e);
            },
        }
        let ghost b = self.log();
        let op = self.control_3();
        let reg = self.read(op);
        proof {
            lemma_track(pre, b, self.log(), self.log().last());
        }
        match reg {
            Ok(v) => out.push((Register::Control3.address(), FieldSetValue::Control3(v))),
            Err(e) => {
                return Err(e);
            },
        }
        let ghost b = self.log();
        let op = self.mask();
        let reg = self.read(op);
        proof {
            lemma_track(pre, b, self.log(), self.log().last());
        }
        match reg {
            Ok(v) => out.push((Register::Mask.address(), FieldSetValue::Mask(v))),
            Err(e) => {
                return Err(e);
            },
        }
        let ghost b = self.log();
        let op = self.power();
        let reg = self.read(op);
        proof {
            lemma_track(pre, b, self.log(), self.log().last());
        }
        match reg {
            Ok(v) => out.push((Register::Power.address(), FieldSetValue::Power(v))),
            Err(e) => {
                return Err(e);
            },
        }
        let ghost b = self.log();
        let op = self.ocpreg();
        let reg = self.read(op);
        proof {
            lemma_track(pre, b, self.log(), self.log().last());
        }
        match reg {
            Ok(v) => out.push((Register::Ocpreg.address(), FieldSetValue::Ocpreg(v))),
            Err(e) => {
                return Err(e);
            },
        }
        let ghost b = self.log();
        let op = self.maska();
        let reg = self.read(op);
        proof {
            lemma_track(pre, b, self.log(), self.log().last());
        }
        match reg {
            Ok(v) => out.push((Register::Maska.address(), FieldSetValue::Maska(v))),
            Err(e) => {
                return Err(e);
            },
        }
        let ghost b = self.log();
        let op = self.maskb();
        let reg = self.read(op);
        proof {
            lemma_track(pre, b, self.log(), self.log().last());
        }
        match reg {
            Ok(v) => out.push((Register::Maskb.address(), FieldSetValue::Maskb(v))),
            Err(e) => {
                return Err(e);
            },
        }
        let ghost b = self.log();
        let op = self.control_4();
        let reg = self.read(op);
        proof {
            lemma_track(pre, b, self.log(), self.log().last());
        }
        match reg {
            Ok(v) => out.push((Register::Control4.address(), FieldSetValue::Control4(v))),
            Err(e) => {
                return Err(e);
            },
        }
        let ghost b = self.log();
        let op = self.status_0_a();
        let reg = self.read(op);
        proof {
            lemma_track(pre, b, self.log(), self.log().last());
        }
        match reg {
            Ok(v) => out.push((Register::Status0A.address(), FieldSetValue::Status0A(v))),
            Err(e) => {
                return Err(e);
            },
        }
        let ghost b = self.log();
        let op = self.status_1_a();
        let reg = self.read(op);
        proof {
            lemma_track(pre, b, self.log(), self.log().last());
        }
        match reg {
            Ok(v) => out.push((Register::Status1A.address(), FieldSetValue::Status1A(v))),
            Err(e) => {
                return Err(e);
            },
        }
        let ghost b = self.log();
        let op = self.interrupta();
        let reg = self.read(op);
        proof {
            lemma_track(pre, b, self.log(), self.log().last());
        }
        match reg {
            Ok(v) => out.push((Register::Interrupta.address(), FieldSetValue::Interrupta(v))),
            Err(e) => {
                return Err(e);
            },
        }
        let ghost b = self.log();
        let op = self.interruptb();
        let reg = self.read(op);
        proof {
            lemma_track(pre, b, self.log(), self.log().last());
        }
        match reg {
            Ok(v) => out.push((Register::Interruptb.address(), FieldSetValue::Interruptb(v))),
            Err(e) => {
                return Err(e);
            },
        }
        let ghost b = self.log();
        let op = self.status_0();
        let reg = self.read(op);
        proof {
            lemma_track(pre, b, self.log(), self.log().last());
        }
        match reg {
            Ok(v) => out.push((Register::Status0.address(), FieldSetValue::Status0(v))),
            Err(e) => {
                return Err(e);
            },
        }
        let ghost b = self.log();
        let op = self.status_1();
        let reg = self.read(op);
        proof {
            lemma_track(pre, b, self.log(), self.log().last());
        }
        match reg {
            Ok(v) => out.push((Register::Status1.address(), FieldSetValue::Status1(v))),
            Err(e) => {
                return Err(e);
            },
        }
        let ghost b = self.log();
        let op = self.interrupt();
        let reg = self.read(op);
        proof {
            lemma_track(pre, b, self.log(), self.log().last());
        }
        match reg {
            Ok(v) => out.push((Register::Interrupt.address(), FieldSetValue::Interrupt(v))),
            Err(e) => {
                return Err(e);
            },
        }
        Ok(out)
    }

    /// Device Identification Register.
    pub fn device_id(&self) -> (op: RegisterOperation<DeviceId>)
        ensures
            op.spec_reg() == Register::DeviceId,
    {
        RegisterOperation::for_register(Register::DeviceId)
    }

    /// Switch Control Register 0.
    pub fn switches_0(&self) -> (op: RegisterOperation<Switches0>)
        ensures
            op.spec_reg() == Register::Switches0,
    {
        RegisterOperation::for_register(Register::Switches0)
    }

    /// Switch Control Register 1.
    pub fn switches_1(&self) -> (op: RegisterOperation<Switches1>)
        ensures
            op.spec_reg() == Register::Switches1,
    {
        RegisterOperation::for_register(Register::Switches1)
    }

    /// Measure Control Register.
    pub fn measure(&self) -> (op: RegisterOperation<Measure>)
        ensures
            op.spec_reg() == Register::Measure,
    {
        RegisterOperation::for_register(Register::Measure)
    }

    /// Slice Control Register.
    pub fn slice(&self) -> (op: RegisterOperation<Slice>)
        ensures
            op.spec_reg() == Register::Slice,
    {
        RegisterOperation::for_register(Register::Slice)
    }

    /// Control Register 0.
    pub fn control_0(&self) -> (op: RegisterOperation<Control0>)
        ensures
            op.spec_reg() == Register::Control0,
    {
        RegisterOperation::for_register(Register::Control0)
    }

    /// Control Register 1.
    pub fn control_1(&self) -> (op: RegisterOperation<Control1>)
        ensures
            op.spec_reg() == Register::Control1,
    {
        RegisterOperation::for_register(Register::Control1)
    }

    /// Control Register 2.
    pub fn control_2(&self) -> (op: RegisterOperation<Control2>)
        ensures
            op.spec_reg() == Register::Control2,
    {
        RegisterOperation::for_register(Register::Control2)
    }

    /// Control Register 3.
    pub fn control_3(&self) -> (op: RegisterOperation<Control3>)
        ensures
            op.spec_reg() == Register::Control3,
    {
        RegisterOperation::for_register(Register::Control3)
    }

    /// Interrupt Mask Register.
    pub fn mask(&self) -> (op: RegisterOperation<Mask>)
        ensures
            op.spec_reg() == Register::Mask,
    {
        RegisterOperation::for_register(Register::Mask)
    }

    /// Power Control Register.
    pub fn power(&self) -> (op: RegisterOperation<Power>)
        ensures
            op.spec_reg() == Register::Power,
    {
        RegisterOperation::for_register(Register::Power)
    }

    /// Reset Control Register.
    pub fn reset(&self) -> (op: RegisterOperation<Reset>)
        ensures
            op.spec_reg() == Register::Reset,
    {
        RegisterOperation::for_register(Register::Reset)
    }

    /// Over-Current Protection Register.
    pub fn ocpreg(&self) -> (op: RegisterOperation<Ocpreg>)
        ensures
            op.spec_reg() == Register::Ocpreg,
    {
        RegisterOperation::for_register(Register::Ocpreg)
    }

    /// Interrupt Mask Register A.
    pub fn maska(&self) -> (op: RegisterOperation<Maska>)
        ensures
            op.spec_reg() == Register::Maska,
    {
        RegisterOperation::for_register(Register::Maska)
    }

    /// Interrupt Mask Register B.
    pub fn maskb(&self) -> (op: RegisterOperation<Maskb>)
        ensures
            op.spec_reg() == Register::Maskb,
    {
        RegisterOperation::for_register(Register::Maskb)
    }

    /// Control Register 4.
    pub fn control_4(&self) -> (op: RegisterOperation<Control4>)
        ensures
            op.spec_reg() == Register::Control4,
    {
        RegisterOperation::for_register(Register::Control4)
    }

    /// Status Register 0A.
    pub fn status_0_a(&self) -> (op: RegisterOperation<Status0A>)
        ensures
            op.spec_reg() == Register::Status0A,
    {
        RegisterOperation::for_register(Register::Status0A)
    }

    /// Status Register 1A.
    pub fn status_1_a(&self) -> (op: RegisterOperation<Status1A>)
        ensures
            op.spec_reg() == Register::Status1A,
    {
        RegisterOperation::for_register(Register::Status1A)
    }

    /// Interrupt Register A (read to observe, write to clear).
    pub fn interrupta(&self) -> (op: RegisterOperation<Interrupta>)
        ensures
            op.spec_reg() == Register::Interrupta,
    {
        RegisterOperation::for_register(Register::Interrupta)
    }

    /// Interrupt Register B (read to observe, write to clear).
    pub fn interruptb(&self) -> (op: RegisterOperation<Interruptb>)
        ensures
            op.spec_reg() == Register::Interruptb,
    {
        RegisterOperation::for_register(Register::Interruptb)
    }

    /// Status Register 0.
    pub fn status_0(&self) -> (op: RegisterOperation<Status0>)
        ensures
            op.spec_reg() == Register::Status0,
    {
        RegisterOperation::for_register(Register::Status0)
    }

    /// Status Register 1.
    pub fn status_1(&self) -> (op: RegisterOperation<Status1>)
        ensures
            op.spec_reg() == Register::Status1,
    {
        RegisterOperation::for_register(Register::Status1)
    }

    /// Interrupt Status Register (read to observe, write to clear).
    pub fn interrupt(&self) -> (op: RegisterOperation<Interrupt>)
        ensures
            op.spec_reg() == Register::Interrupt,
    {
        RegisterOperation::for_register(Register::Interrupt)
    }

    /// The TX/RX FIFO buffer channel.
    pub fn fifo(&self) -> (op: BufferOperation)
        ensures
            op.spec_address() == FIFO_ADDRESS,
    {
        BufferOperation { address: FIFO_ADDRESS }
    }

    /// Streams `buf` to the FIFO channel in a single bus transaction.
    pub fn write_all_buffer(&mut self, op: BufferOperation, buf: &[u8]) -> (r: Result<
        (),
        FusbError,
    >)
        ensures
            1 + buf@.len() > crate::interface::BUFFER_WRITE_CAPACITY ==> r == Err::<
                (),
                FusbError,
            >(FusbError::LenExceedsBuffer) && final(self).log() == old(self).log(),
            1 + buf@.len() <= crate::interface::BUFFER_WRITE_CAPACITY ==> final(self).log() == old(
                self,
            ).log().push(
                BusOp::Write {
                    dev: crate::FUSB302B_I2C_ADDRESS,
                    data: seq![op.spec_address()] + buf@,
                    ok: r is Ok,
                },
            ),
            r matches Err(e) ==> (e matches FusbError::I2c(_) || e == FusbError::LenExceedsBuffer),
    {
        match self.interface.write_buffer(op.address(), buf) {
            Ok(_) => Ok(()),
            Err(e) => Err(e),
        }
    }

    /// Reads `read_len` bytes from the FIFO channel in a single bus
    /// transaction.
    pub fn read_buffer(&mut self, op: BufferOperation, read_len: usize) -> (r: Result<
        Vec<u8>,
        FusbError,
    >)
        ensures
            r matches Ok(v) ==> v@.len() == read_len && final(self).log() == old(self).log().push(
                BusOp::WriteRead {
                    dev: crate::FUSB302B_I2C_ADDRESS,
                    data: seq![op.spec_address()],
                    resp: v@,
                    ok: true,
                },
            ),
            r matches Err(e) ==> e matches FusbError::I2c(_) && final(self).log() == old(
                self,
            ).log().push(
                BusOp::WriteRead {
                    dev: crate::FUSB302B_I2C_ADDRESS,
                    data: seq![op.spec_address()],
                    resp: Seq::empty(),
                    ok: false,
                },
            ),
    {
        self.interface.read_buffer(op.address(), read_len)
    }

    /// Suspends execution for `ms` milliseconds.
    pub fn delay_ms(&mut self, ms: u64)
        ensures
            final(self).log() == old(self).log().push(BusOp::Delay { ms }),
    {
        self.interface.delay_ms(ms);
    }
}

} // verus!
