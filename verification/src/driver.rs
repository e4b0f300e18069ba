//! Chip bring-up and the PD frame transport.
//!
//! [`Fusb302b`] orchestrates the chip over the register and buffer layers:
//! bring-up (reset, identity check, power-up, interrupt unmasking,
//! auto-retry configuration, CC-pin detection), and the interrupt-driven
//! transmit / receive / hard-reset operations of the PD physical layer.
//!
//! Every contract is a relation between the result and the suffix of bus
//! transactions the operation appended to the ghost log: which registers
//! were written and with which values, what was streamed to the FIFO, and
//! which interrupt observations justify the outcome.  Polling deadlines are
//! counted in iterations of the fixed one-millisecond poll cadence.

use vstd::prelude::*;

use crate::bus::{
    BusOp, I2cBus, failed_reg_read_op, is_reg_read, is_reg_write, op_ok, reg_read_op,
    reg_read_value, reg_write_op, reg_write_value, writes_to_reg,
};
use crate::device::{Device, Register, FIFO_ADDRESS};
use crate::enums::{BcLvl, Fusb302Version, RetryCount};
use crate::field_sets::{Switches0, Switches1, Power, Reset, Mask, Maska, Maskb, Control0, Control1, Control3, Status0};
use crate::error::{FusbError, TxError, RxError};
use crate::field_sets::FieldSet;
use crate::frame::{build_frame, frame_bytes, total_message_len, spec_total_message_len, MAX_TX_PAYLOAD};
use crate::tokens::{sop_token_valid, spec_sop_token};
use crate::fields::{spec_bit, spec_field};
use crate::interface::DeviceInterface;

verus! {

/// The `i_hardrst` bit of the interrupt-a register.
pub const INTA_HARDRST: u8 = 0x01;

/// The `i_txsent` bit of the interrupt-a register.
pub const INTA_TXSENT: u8 = 0x04;

/// The `i_hardsent` bit of the interrupt-a register.
pub const INTA_HARDSENT: u8 = 0x08;

/// The `i_retryfail` bit of the interrupt-a register.
pub const INTA_RETRYFAIL: u8 = 0x10;

/// The `i_collision` bit of the interrupt status register.
pub const INT_COLLISION: u8 = 0x02;

/// The `i_crc_chk` bit of the interrupt status register.
pub const INT_CRC_CHK: u8 = 0x10;

/// The internal-oscillator-enable bit of the power control register.
pub const PWR_OSC: u8 = 0x08;

/// The `rx_flush` bit of control register 1.
pub const CTRL1_RX_FLUSH: u8 = 0x04;

/// The `send_hard_reset` bit of control register 3.
pub const CTRL3_SEND_HARD_RESET: u8 = 0x40;

/// Poll iterations (at the 1 ms cadence) allowed for a transmit to
/// complete; generous because hardware auto-retry may need several
/// attempts.
pub const TX_DEADLINE_MS: u32 = 15;

/// Poll iterations (at the 1 ms cadence) allowed for a hard reset to be
/// sent.
pub const HARD_RESET_DEADLINE_MS: u32 = 5;

/// Poll iterations (at the 1 ms cadence) allowed for a message to arrive.
pub const RX_DEADLINE_MS: u32 = 20;

/// Milliseconds the chip is given to settle after a reset or a switch
/// reconfiguration.
pub const SETTLE_MS: u64 = 10;

/// The operations an exclusive run of the driver appended to the bus log:
/// everything in `post` past the end of `pre`.
pub open spec fn new_ops(pre: Seq<BusOp>, post: Seq<BusOp>) -> Seq<BusOp> {
    post.skip(pre.len() as int)
}

/// Whether `op` addresses register `reg` of the chip at all, as a write or
/// a read, successful or not.
pub open spec fn touches_reg(op: BusOp, reg: Register) -> bool {
    match op {
        BusOp::Write { dev, data, .. } => dev == crate::FUSB302B_I2C_ADDRESS && data.len() >= 1
            && data[0] == reg.spec_address(),
        BusOp::WriteRead { dev, data, .. } => dev == crate::FUSB302B_I2C_ADDRESS && data.len() >= 1
            && data[0] == reg.spec_address(),
        BusOp::Delay { .. } => false,
    }
}

/// Whether every transaction of `s` that touches register `reg` was
/// reported successful by the bus.
pub open spec fn reg_ops_all_ok(s: Seq<BusOp>, reg: Register) -> bool {
    forall|i: int| 0 <= i < s.len() && #[trigger] touches_reg(s[i], reg) ==> op_ok(s[i])
}

/// Whether `op` is a successful read of register `reg` whose value has a
/// bit of `mask` set.
pub open spec fn reads_reg_bit(op: BusOp, reg: Register, mask: u8) -> bool {
    is_reg_read(op, reg.spec_address()) && spec_bit(reg_read_value(op), mask)
}

/// Whether some read in `s` observed a bit of `mask` set in register
/// `reg`.
pub open spec fn saw_reg_bit(s: Seq<BusOp>, reg: Register, mask: u8) -> bool {
    exists|i: int| 0 <= i < s.len() && reads_reg_bit(#[trigger] s[i], reg, mask)
}

/// The values written to register `reg` in `s`, oldest first, successful
/// or not.
pub open spec fn reg_writes(s: Seq<BusOp>, reg: Register) -> Seq<u8> {
    writes_to_reg(s, reg.spec_address())
}

/// The values returned by the successful one-byte reads of register `reg`
/// in `s`, oldest first.
pub open spec fn reg_reads(s: Seq<BusOp>, reg: Register) -> Seq<u8>
    decreases s.len(),
{
    if s.len() == 0 {
        Seq::empty()
    } else if is_reg_read(s.last(), reg.spec_address()) {
        reg_reads(s.drop_last(), reg).push(reg_read_value(s.last()))
    } else {
        reg_reads(s.drop_last(), reg)
    }
}

/// Whether `op` streams bytes to the FIFO channel: a write whose first
/// data byte is the FIFO address.
pub open spec fn is_fifo_write(op: BusOp) -> bool {
    match op {
        BusOp::Write { dev, data, .. } => dev == crate::FUSB302B_I2C_ADDRESS && data.len() >= 1
            && data[0] == FIFO_ADDRESS,
        _ => false,
    }
}

/// The bytes streamed to the FIFO by a FIFO write, without the leading
/// FIFO address byte.
pub open spec fn fifo_write_data(op: BusOp) -> Seq<u8> {
    match op {
        BusOp::Write { data, .. } => data.skip(1),
        _ => Seq::empty(),
    }
}

/// The payloads streamed to the FIFO channel in `s`, oldest first, without
/// the leading FIFO address byte.
pub open spec fn fifo_writes(s: Seq<BusOp>) -> Seq<Seq<u8>>
    decreases s.len(),
{
    if s.len() == 0 {
        Seq::empty()
    } else if is_fifo_write(s.last()) {
        fifo_writes(s.drop_last()).push(fifo_write_data(s.last()))
    } else {
        fifo_writes(s.drop_last())
    }
}

/// Whether `op` is a successful read of bytes from the FIFO channel.
pub open spec fn is_fifo_read(op: BusOp) -> bool {
    match op {
        BusOp::WriteRead { dev, data, ok, .. } => ok && dev == crate::FUSB302B_I2C_ADDRESS
            && data.len() == 1 && data[0] == FIFO_ADDRESS,
        _ => false,
    }
}

/// The bytes a successful FIFO read returned.
pub open spec fn fifo_read_data(op: BusOp) -> Seq<u8> {
    match op {
        BusOp::WriteRead { resp, .. } => resp,
        _ => Seq::empty(),
    }
}

/// The byte sequences successfully read from the FIFO channel in `s`,
/// oldest first.
pub open spec fn fifo_reads(s: Seq<BusOp>) -> Seq<Seq<u8>>
    decreases s.len(),
{
    if s.len() == 0 {
        Seq::empty()
    } else if is_fifo_read(s.last()) {
        fifo_reads(s.drop_last()).push(fifo_read_data(s.last()))
    } else {
        fifo_reads(s.drop_last())
    }
}

/// The total number of bytes in a sequence of byte chunks.
pub open spec fn total_len(chunks: Seq<Seq<u8>>) -> int
    decreases chunks.len(),
{
    if chunks.len() == 0 {
        0
    } else {
        total_len(chunks.drop_last()) + chunks.last().len()
    }
}

/// Appending one chunk adds its length to the total.
pub proof fn lemma_total_len_push(chunks: Seq<Seq<u8>>, chunk: Seq<u8>)
    ensures
        total_len(chunks.push(chunk)) == total_len(chunks) + chunk.len(),
{
    assert(chunks.push(chunk).drop_last() =~= chunks);
}

/// How one appended operation changes the register write record.
pub proof fn lemma_reg_writes_push(s: Seq<BusOp>, op: BusOp, reg: Register)
    ensures
        reg_writes(s.push(op), reg) == (if is_reg_write(op, reg.spec_address()) {
            reg_writes(s, reg).push(reg_write_value(op))
        } else {
            reg_writes(s, reg)
        }),
{
    assert(s.push(op).drop_last() =~= s);
}

/// How one appended operation changes the register read record.
pub proof fn lemma_reg_reads_push(s: Seq<BusOp>, op: BusOp, reg: Register)
    ensures
        reg_reads(s.push(op), reg) == (if is_reg_read(op, reg.spec_address()) {
            reg_reads(s, reg).push(reg_read_value(op))
        } else {
            reg_reads(s, reg)
        }),
{
    assert(s.push(op).drop_last() =~= s);
}

/// How one appended operation changes the FIFO write record.
pub proof fn lemma_fifo_writes_push(s: Seq<BusOp>, op: BusOp)
    ensures
        fifo_writes(s.push(op)) == (if is_fifo_write(op) {
            fifo_writes(s).push(fifo_write_data(op))
        } else {
            fifo_writes(s)
        }),
{
    assert(s.push(op).drop_last() =~= s);
}

/// How one appended operation changes the FIFO read record.
pub proof fn lemma_fifo_reads_push(s: Seq<BusOp>, op: BusOp)
    ensures
        fifo_reads(s.push(op)) == (if is_fifo_read(op) {
            fifo_reads(s).push(fifo_read_data(op))
        } else {
            fifo_reads(s)
        }),
{
    assert(s.push(op).drop_last() =~= s);
}

/// How one appended operation changes what has been observed.
pub proof fn lemma_saw_reg_bit_push(s: Seq<BusOp>, op: BusOp, reg: Register, mask: u8)
    ensures
        saw_reg_bit(s.push(op), reg, mask) == (saw_reg_bit(s, reg, mask) || reads_reg_bit(
            op,
            reg,
            mask,
        )),
{
    let t = s.push(op);
    if saw_reg_bit(s, reg, mask) {
        let i = choose|i: int| 0 <= i < s.len() && reads_reg_bit(#[trigger] s[i], reg, mask);
        assert(reads_reg_bit(t[i], reg, mask));
    }
    if reads_reg_bit(op, reg, mask) {
        assert(reads_reg_bit(t[s.len() as int], reg, mask));
    }
    if saw_reg_bit(t, reg, mask) && !saw_reg_bit(s, reg, mask) {
        let i = choose|i: int| 0 <= i < t.len() && reads_reg_bit(#[trigger] t[i], reg, mask);
        if i < s.len() {
            assert(reads_reg_bit(s[i], reg, mask));
        } else {
            assert(reads_reg_bit(op, reg, mask));
        }
    }
}

/// How one appended operation changes which registers were touched only
/// successfully.
pub proof fn lemma_reg_ops_all_ok_push(s: Seq<BusOp>, op: BusOp, reg: Register)
    ensures
        reg_ops_all_ok(s.push(op), reg) == (reg_ops_all_ok(s, reg) && (touches_reg(op, reg)
            ==> op_ok(op))),
{
    let t = s.push(op);
    if reg_ops_all_ok(s, reg) && (touches_reg(op, reg) ==> op_ok(op)) {
        assert forall|i: int|
            0 <= i < t.len() && #[trigger] touches_reg(t[i], reg) implies op_ok(t[i]) by {
            if i < s.len() {
                assert(touches_reg(s[i], reg));
            }
        }
    }
    if reg_ops_all_ok(t, reg) {
        assert forall|i: int|
            0 <= i < s.len() && #[trigger] touches_reg(s[i], reg) implies op_ok(s[i]) by {
            assert(touches_reg(t[i], reg));
            assert(t[i] == s[i]);
        }
        if touches_reg(op, reg) {
            assert(touches_reg(t[s.len() as int], reg));
        }
    }
}

/// Whether every transaction of `s` was reported successful by the bus.
pub open spec fn ops_all_ok(s: Seq<BusOp>) -> bool {
    forall|i: int| 0 <= i < s.len() ==> op_ok(#[trigger] s[i])
}

/// How one appended operation changes whether every transaction
/// succeeded.
pub proof fn lemma_ops_all_ok_push(s: Seq<BusOp>, op: BusOp)
    ensures
        ops_all_ok(s.push(op)) == (ops_all_ok(s) && op_ok(op)),
{
    let t = s.push(op);
    if ops_all_ok(s) && op_ok(op) {
        assert forall|i: int| 0 <= i < t.len() implies op_ok(t[i]) by {
            if i < s.len() {
                assert(op_ok(s[i]));
            }
        }
    }
    if ops_all_ok(t) {
        assert forall|i: int| 0 <= i < s.len() implies op_ok(s[i]) by {
            assert(op_ok(t[i]));
        }
        assert(op_ok(t[s.len() as int]));
    }
}

/// Success of every transaction distributes over concatenation.
pub proof fn lemma_ops_all_ok_concat(s1: Seq<BusOp>, s2: Seq<BusOp>)
    ensures
        ops_all_ok(s1 + s2) == (ops_all_ok(s1) && ops_all_ok(s2)),
{
    let t = s1 + s2;
    if ops_all_ok(s1) && ops_all_ok(s2) {
        assert forall|i: int| 0 <= i < t.len() implies op_ok(t[i]) by {
            if i < s1.len() {
                assert(t[i] == s1[i]);
            } else {
                assert(t[i] == s2[i - s1.len()]);
            }
        }
    }
    if ops_all_ok(t) {
        assert forall|i: int| 0 <= i < s1.len() implies op_ok(s1[i]) by {
            assert(s1[i] == t[i]);
        }
        assert forall|i: int| 0 <= i < s2.len() implies op_ok(s2[i]) by {
            assert(s2[i] == t[i + s1.len()]);
        }
    }
}

/// The one tracking step used after every bus transaction: the suffix of
/// new operations grows by exactly the appended operation, and every
/// record over it changes as the corresponding push lemma says.
pub proof fn lemma_track(pre: Seq<BusOp>, before: Seq<BusOp>, after: Seq<BusOp>, op: BusOp)
    requires
        pre.is_prefix_of(before),
        after == before.push(op),
    ensures
        pre.is_prefix_of(after),
        new_ops(pre, after) == new_ops(pre, before).push(op),
        forall|reg: Register|
            #[trigger] reg_writes(new_ops(pre, after), reg) == (if is_reg_write(
                op,
                reg.spec_address(),
            ) {
                reg_writes(new_ops(pre, before), reg).push(reg_write_value(op))
            } else {
                reg_writes(new_ops(pre, before), reg)
            }),
        forall|reg: Register, mask: u8|
            #[trigger] saw_reg_bit(new_ops(pre, after), reg, mask) == (saw_reg_bit(
                new_ops(pre, before),
                reg,
                mask,
            ) || reads_reg_bit(op, reg, mask)),
        forall|reg: Register|
            #[trigger] reg_reads(new_ops(pre, after), reg) == (if is_reg_read(
                op,
                reg.spec_address(),
            ) {
                reg_reads(new_ops(pre, before), reg).push(reg_read_value(op))
            } else {
                reg_reads(new_ops(pre, before), reg)
            }),
        fifo_writes(new_ops(pre, after)) == (if is_fifo_write(op) {
            fifo_writes(new_ops(pre, before)).push(fifo_write_data(op))
        } else {
            fifo_writes(new_ops(pre, before))
        }),
        fifo_reads(new_ops(pre, after)) == (if is_fifo_read(op) {
            fifo_reads(new_ops(pre, before)).push(fifo_read_data(op))
        } else {
            fifo_reads(new_ops(pre, before))
        }),
        forall|reg: Register|
            #[trigger] reg_ops_all_ok(new_ops(pre, after), reg) == (reg_ops_all_ok(
                new_ops(pre, before),
                reg,
            ) && (touches_reg(op, reg) ==> op_ok(op))),
        ops_all_ok(new_ops(pre, after)) == (ops_all_ok(new_ops(pre, before)) && op_ok(op)),
{
    let sb = new_ops(pre, before);
    assert(new_ops(pre, after) =~= sb.push(op));
    assert(after.subrange(0, pre.len() as int) =~= pre);
    assert forall|reg: Register|
        #[trigger] reg_writes(new_ops(pre, after), reg) == (if is_reg_write(
            op,
            reg.spec_address(),
        ) {
            reg_writes(sb, reg).push(reg_write_value(op))
        } else {
            reg_writes(sb, reg)
        }) by {
        lemma_reg_writes_push(sb, op, reg);
    }
    assert forall|reg: Register, mask: u8|
        #[trigger] saw_reg_bit(new_ops(pre, after), reg, mask) == (saw_reg_bit(sb, reg, mask)
            || reads_reg_bit(op, reg, mask)) by {
        lemma_saw_reg_bit_push(sb, op, reg, mask);
    }
    assert forall|reg: Register|
        #[trigger] reg_reads(new_ops(pre, after), reg) == (if is_reg_read(
            op,
            reg.spec_address(),
        ) {
            reg_reads(sb, reg).push(reg_read_value(op))
        } else {
            reg_reads(sb, reg)
        }) by {
        lemma_reg_reads_push(sb, op, reg);
    }
    lemma_fifo_writes_push(sb, op);
    lemma_fifo_reads_push(sb, op);
    assert forall|reg: Register|
        #[trigger] reg_ops_all_ok(new_ops(pre, after), reg) == (reg_ops_all_ok(sb, reg) && (
        touches_reg(op, reg) ==> op_ok(op))) by {
        lemma_reg_ops_all_ok_push(sb, op, reg);
    }
    lemma_ops_all_ok_push(sb, op);
}

/// Register writes distribute over concatenation of operation sequences.
pub proof fn lemma_writes_to_reg_concat(s1: Seq<BusOp>, s2: Seq<BusOp>, address: u8)
    ensures
        writes_to_reg(s1 + s2, address) == writes_to_reg(s1, address) + writes_to_reg(s2, address),
    decreases s2.len(),
{
    if s2.len() == 0 {
        assert(s1 + s2 =~= s1);
        assert(writes_to_reg(s1, address) + writes_to_reg(s2, address) =~= writes_to_reg(
            s1,
            address,
        ));
    } else {
        let s2p = s2.drop_last();
        let op = s2.last();
        lemma_writes_to_reg_concat(s1, s2p, address);
        assert((s1 + s2).drop_last() =~= s1 + s2p);
        assert((s1 + s2).last() == op);
        if is_reg_write(op, address) {
            assert(writes_to_reg(s1, address) + writes_to_reg(s2, address) =~= (writes_to_reg(
                s1,
                address,
            ) + writes_to_reg(s2p, address)).push(reg_write_value(op)));
        } else {
            assert(writes_to_reg(s2, address) == writes_to_reg(s2p, address));
        }
    }
}

/// Setting bits by mask leaves them set.
pub proof fn lemma_or_sets_bit(v: u8, mask: u8)
    requires
        mask != 0,
    ensures
        spec_bit(v | mask, mask),
{
    assert(mask == 0 || (v | mask) & mask != 0) by (bit_vector);
}

/// Clearing bits by mask leaves them clear.
pub proof fn lemma_and_not_clears_bit(v: u8, mask: u8)
    ensures
        !spec_bit(v & !mask, mask),
{
    assert((v & !mask) & mask == 0) by (bit_vector);
}

/// The detected CC pin orientation.
#[derive(Clone, Copy, Debug, PartialEq, Eq, Structural)]
pub enum CcPin {
    /// The first configuration-channel line.
    Cc1,
    /// The second configuration-channel line.
    Cc2,
}

/// The FUSB302B driver: chip bring-up and the PD frame transport, over an
/// injected two-wire bus.
pub struct Fusb302b<B: I2cBus> {
    /// The low-level device: the typed register map over the bus.
    pub ll: Device<B>,
}

impl<B: I2cBus> Fusb302b<B> {
    /// The transaction log of the underlying bus.
    pub open spec fn log(&self) -> Seq<BusOp> {
        self.ll.log()
    }

    /// Wraps a two-wire bus.  The chip is not touched; bring-up is the
    /// separate [`Fusb302b::init`] step.
    pub fn new(bus: B) -> (r: Self)
        ensures
            r.log() == bus.log(),
    {
        Fusb302b { ll: Device::new(DeviceInterface::new(bus)) }
    }

    /// Reads the device identification register.
    pub fn get_device_info(&mut self) -> (r: Result<crate::field_sets::DeviceId, FusbError>)
        ensures
            r matches Ok(d) ==> final(self).log() == old(self).log().push(
                reg_read_op(Register::DeviceId.spec_address(), d.raw()),
            ),
            r matches Err(e) ==> e matches FusbError::I2c(_) && final(self).log() == old(
                self,
            ).log().push(failed_reg_read_op(Register::DeviceId.spec_address())),
    {
        let op = self.ll.device_id();
        self.ll.read(op)
    }

    /// Transmits one PD message body over the FIFO: enables the internal
    /// oscillator, assembles the frame in a scratch buffer, streams it to
    /// the FIFO in a single write, and polls, once per millisecond up to
    /// the deadline, for a decisive interrupt: packet sent (success, after
    /// acknowledging it), hardware retry failure or collision (discarded),
    /// or hard reset.  The oscillator is released again on every exit
    /// path.
    ///
    /// Over the suffix `s` of bus operations this call appends: at most
    /// one FIFO write is issued and it carries exactly the assembled frame
    /// for `data`; once the oscillator-enable step succeeded and the
    /// payload fits, that write is issued exactly once; if no FIFO write
    /// was issued the message was discarded; an oversized payload is
    /// discarded without touching the FIFO.  The first decisive interrupt
    /// observation determines the result: packet sent forces success,
    /// retry failure or collision forces `Discarded`, a hard reset forces
    /// `HardReset`, and each result is returned only after its
    /// observation; when the bus cooperates, the decisive interrupt is
    /// acknowledged by exactly one write to its register carrying the
    /// acknowledged bit.  If no decisive interrupt was ever observed the
    /// result is `Discarded` — the poll loop cannot hang.  And whenever
    /// the bus reported every power-register transaction successful, the
    /// last write to the power register leaves the oscillator-enable bit
    /// false.
    pub fn transmit(&mut self, data: &[u8]) -> (r: Result<(), TxError>)
        ensures
            old(self).log().is_prefix_of(final(self).log()),
            ({
                let s = new_ops(old(self).log(), final(self).log());
                &&& fifo_writes(s).len() <= 1
                &&& forall|i: int|
                    0 <= i < fifo_writes(s).len() ==> #[trigger] fifo_writes(s)[i] == frame_bytes(
                        data@,
                    )
                &&& (r is Ok ==> fifo_writes(s).len() == 1 && saw_reg_bit(
                    s,
                    Register::Interrupta,
                    INTA_TXSENT,
                ))
                &&& (fifo_writes(s).len() == 0 ==> r == Err::<(), TxError>(TxError::Discarded))
                &&& (data@.len() > MAX_TX_PAYLOAD ==> r == Err::<(), TxError>(TxError::Discarded)
                    && fifo_writes(s).len() == 0)
                &&& (r == Err::<(), TxError>(TxError::HardReset) ==> saw_reg_bit(
                    s,
                    Register::Interrupta,
                    INTA_HARDRST,
                ))
                &&& (!saw_reg_bit(s, Register::Interrupta, INTA_TXSENT) && !saw_reg_bit(
                    s,
                    Register::Interrupta,
                    INTA_RETRYFAIL,
                ) && !saw_reg_bit(s, Register::Interrupta, INTA_HARDRST) && !saw_reg_bit(
                    s,
                    Register::Interrupt,
                    INT_COLLISION,
                ) ==> r == Err::<(), TxError>(TxError::Discarded))
                &&& (reg_ops_all_ok(s, Register::Power) && reg_writes(s, Register::Power).len()
                    > 0 ==> !spec_bit(reg_writes(s, Register::Power).last(), PWR_OSC))
                &&& (data@.len() <= MAX_TX_PAYLOAD && reg_ops_all_ok(s, Register::Power)
                    ==> fifo_writes(s).len() == 1)
                &&& (data@.len() <= MAX_TX_PAYLOAD && s.len() >= 2 && op_ok(s[0]) && op_ok(s[1])
                    ==> fifo_writes(s).len() == 1)
                &&& (saw_reg_bit(s, Register::Interrupta, INTA_TXSENT) && !saw_reg_bit(
                    s,
                    Register::Interrupta,
                    INTA_RETRYFAIL,
                ) && !saw_reg_bit(s, Register::Interrupta, INTA_HARDRST) && !saw_reg_bit(
                    s,
                    Register::Interrupt,
                    INT_COLLISION,
                ) ==> r is Ok)
                &&& (saw_reg_bit(s, Register::Interrupta, INTA_RETRYFAIL) && !saw_reg_bit(
                    s,
                    Register::Interrupta,
                    INTA_TXSENT,
                ) ==> r == Err::<(), TxError>(TxError::Discarded))
                &&& (saw_reg_bit(s, Register::Interrupta, INTA_HARDRST) && !saw_reg_bit(
                    s,
                    Register::Interrupta,
                    INTA_TXSENT,
                ) && !saw_reg_bit(s, Register::Interrupta, INTA_RETRYFAIL) ==> r == Err::<
                    (),
                    TxError,
                >(TxError::HardReset))
                &&& (saw_reg_bit(s, Register::Interrupt, INT_COLLISION) && !saw_reg_bit(
                    s,
                    Register::Interrupta,
                    INTA_TXSENT,
                ) && !saw_reg_bit(s, Register::Interrupta, INTA_RETRYFAIL) && !saw_reg_bit(
                    s,
                    Register::Interrupta,
                    INTA_HARDRST,
                ) ==> r == Err::<(), TxError>(TxError::Discarded))
                &&& (r is Ok && reg_ops_all_ok(s, Register::Interrupta) ==> reg_writes(
                    s,
                    Register::Interrupta,
                ).len() == 1 && spec_bit(reg_writes(s, Register::Interrupta)[0], INTA_TXSENT))
                &&& (saw_reg_bit(s, Register::Interrupta, INTA_RETRYFAIL) && !saw_reg_bit(
                    s,
                    Register::Interrupta,
                    INTA_TXSENT,
                ) && reg_ops_all_ok(s, Register::Interrupta) ==> reg_writes(
                    s,
                    Register::Interrupta,
                ).len() == 1 && spec_bit(reg_writes(s, Register::Interrupta)[0], INTA_RETRYFAIL))
                &&& (saw_reg_bit(s, Register::Interrupt, INT_COLLISION) && !saw_reg_bit(
                    s,
                    Register::Interrupta,
                    INTA_TXSENT,
                ) && !saw_reg_bit(s, Register::Interrupta, INTA_RETRYFAIL) && !saw_reg_bit(
                    s,
                    Register::Interrupta,
                    INTA_HARDRST,
                ) && reg_ops_all_ok(s, Register::Interrupt) ==> reg_writes(
                    s,
                    Register::Interrupt,
                ).len() == 1 && spec_bit(reg_writes(s, Register::Interrupt)[0], INT_COLLISION))
            }),
    {
        let ghost pre = self.log();
        proof {
            assert(new_ops(pre, self.log()) =~= Seq::<BusOp>::empty());
            assert(pre.is_prefix_of(self.log())) by {
                assert(self.log().subrange(0, pre.len() as int) =~= pre);
            }
        }
        // enable the internal oscillator (read-modify-write)
        let pop = self.ll.power();
        let ghost b0 = self.log();
        let read_pwr = self.ll.read(pop);
        proof {
            lemma_track(pre, b0, self.log(), self.log().last());
        }
        let pwr = match read_pwr {
            Ok(v) => v,
            Err(_) => {
                return Err(TxError::Discarded);
            },
        };
        let mut pwr_on = pwr;
        pwr_on.set_pwr_3_internal_oscillator_enable(true);
        proof {
            lemma_or_sets_bit(pwr.raw(), PWR_OSC);
        }
        let ghost b1 = self.log();
        let wrote_pwr = self.ll.write(pop, pwr_on);
        proof {
            lemma_track(pre, b1, self.log(), self.log().last());
        }
        if wrote_pwr.is_err() {
            return Err(TxError::Discarded);
        }

        // assemble the frame in the scratch buffer
        let frame = match build_frame(data) {
            Some(f) => f,
            None => {
                self.release_oscillator(Ghost(pre));
                return Err(TxError::Discarded);
            },
        };

        // the single FIFO write of the assembled frame
        let fop = self.ll.fifo();
        let ghost b2 = self.log();
        let fifo_result = self.ll.write_all_buffer(fop, frame.as_slice());
        proof {
            lemma_track(pre, b2, self.log(), self.log().last());
            assert((seq![FIFO_ADDRESS] + frame@).skip(1) =~= frame@);
        }
        if fifo_result.is_err() {
            self.release_oscillator(Ghost(pre));
            return Err(TxError::Discarded);
        }

        // poll for a decisive interrupt, once per millisecond
        let mut waited: u32 = 0;
        let mut res: Result<(), TxError> = Err(TxError::Discarded);
        let iaop = self.ll.interrupta();
        let iop = self.ll.interrupt();
        loop
            invariant_except_break
                !saw_reg_bit(new_ops(pre, self.log()), Register::Interrupta, INTA_TXSENT),
                !saw_reg_bit(new_ops(pre, self.log()), Register::Interrupta, INTA_RETRYFAIL),
                !saw_reg_bit(new_ops(pre, self.log()), Register::Interrupta, INTA_HARDRST),
                !saw_reg_bit(new_ops(pre, self.log()), Register::Interrupt, INT_COLLISION),
                reg_writes(new_ops(pre, self.log()), Register::Interrupta) == Seq::<u8>::empty(),
                reg_writes(new_ops(pre, self.log()), Register::Interrupt) == Seq::<u8>::empty(),
            invariant
                waited <= TX_DEADLINE_MS,
                iaop.spec_reg() == Register::Interrupta,
                iop.spec_reg() == Register::Interrupt,
                data@.len() <= MAX_TX_PAYLOAD,
                pre.is_prefix_of(self.log()),
                fifo_writes(new_ops(pre, self.log())) == seq![frame_bytes(data@)],
            ensures
                pre.is_prefix_of(self.log()),
                fifo_writes(new_ops(pre, self.log())) == seq![frame_bytes(data@)],
                res is Ok ==> saw_reg_bit(
                    new_ops(pre, self.log()),
                    Register::Interrupta,
                    INTA_TXSENT,
                ),
                res == Err::<(), TxError>(TxError::HardReset) ==> saw_reg_bit(
                    new_ops(pre, self.log()),
                    Register::Interrupta,
                    INTA_HARDRST,
                ),
                !saw_reg_bit(new_ops(pre, self.log()), Register::Interrupta, INTA_TXSENT)
                    && !saw_reg_bit(new_ops(pre, self.log()), Register::Interrupta, INTA_RETRYFAIL)
                    && !saw_reg_bit(new_ops(pre, self.log()), Register::Interrupta, INTA_HARDRST)
                    && !saw_reg_bit(new_ops(pre, self.log()), Register::Interrupt, INT_COLLISION)
                    ==> res == Err::<(), TxError>(TxError::Discarded),
                saw_reg_bit(new_ops(pre, self.log()), Register::Interrupta, INTA_TXSENT)
                    && !saw_reg_bit(new_ops(pre, self.log()), Register::Interrupta, INTA_RETRYFAIL)
                    && !saw_reg_bit(new_ops(pre, self.log()), Register::Interrupta, INTA_HARDRST)
                    && !saw_reg_bit(new_ops(pre, self.log()), Register::Interrupt, INT_COLLISION)
                    ==> res is Ok,
                saw_reg_bit(new_ops(pre, self.log()), Register::Interrupta, INTA_RETRYFAIL)
                    && !saw_reg_bit(new_ops(pre, self.log()), Register::Interrupta, INTA_TXSENT)
                    ==> res == Err::<(), TxError>(TxError::Discarded),
                saw_reg_bit(new_ops(pre, self.log()), Register::Interrupta, INTA_HARDRST)
                    && !saw_reg_bit(new_ops(pre, self.log()), Register::Interrupta, INTA_TXSENT)
                    && !saw_reg_bit(new_ops(pre, self.log()), Register::Interrupta, INTA_RETRYFAIL)
                    ==> res == Err::<(), TxError>(TxError::HardReset),
                saw_reg_bit(new_ops(pre, self.log()), Register::Interrupt, INT_COLLISION)
                    && !saw_reg_bit(new_ops(pre, self.log()), Register::Interrupta, INTA_TXSENT)
                    && !saw_reg_bit(new_ops(pre, self.log()), Register::Interrupta, INTA_RETRYFAIL)
                    && !saw_reg_bit(new_ops(pre, self.log()), Register::Interrupta, INTA_HARDRST)
                    ==> res == Err::<(), TxError>(TxError::Discarded),
                res is Ok && reg_ops_all_ok(new_ops(pre, self.log()), Register::Interrupta)
                    ==> reg_writes(new_ops(pre, self.log()), Register::Interrupta).len() == 1
                    && spec_bit(
                    reg_writes(new_ops(pre, self.log()), Register::Interrupta)[0],
                    INTA_TXSENT,
                ),
                saw_reg_bit(new_ops(pre, self.log()), Register::Interrupta, INTA_RETRYFAIL)
                    && !saw_reg_bit(new_ops(pre, self.log()), Register::Interrupta, INTA_TXSENT)
                    && reg_ops_all_ok(new_ops(pre, self.log()), Register::Interrupta)
                    ==> reg_writes(new_ops(pre, self.log()), Register::Interrupta).len() == 1
                    && spec_bit(
                    reg_writes(new_ops(pre, self.log()), Register::Interrupta)[0],
                    INTA_RETRYFAIL,
                ),
                saw_reg_bit(new_ops(pre, self.log()), Register::Interrupt, INT_COLLISION)
                    && !saw_reg_bit(new_ops(pre, self.log()), Register::Interrupta, INTA_TXSENT)
                    && !saw_reg_bit(new_ops(pre, self.log()), Register::Interrupta, INTA_RETRYFAIL)
                    && !saw_reg_bit(new_ops(pre, self.log()), Register::Interrupta, INTA_HARDRST)
                    && reg_ops_all_ok(new_ops(pre, self.log()), Register::Interrupt)
                    ==> reg_writes(new_ops(pre, self.log()), Register::Interrupt).len() == 1
                    && spec_bit(
                    reg_writes(new_ops(pre, self.log()), Register::Interrupt)[0],
                    INT_COLLISION,
                ),
            decreases TX_DEADLINE_MS - waited,
        {
            let ghost bl = self.log();
            let read_ia = self.ll.read(iaop);
            proof {
                lemma_track(pre, bl, self.log(), self.log().last());
            }
            let irqa = match read_ia {
                Ok(v) => v,
                Err(_) => {
                    res = Err(TxError::Discarded);
                    break ;
                },
            };
            if irqa.i_txsent() {
                proof {
                    assert(saw_reg_bit(new_ops(pre, self.log()), Register::Interrupta, INTA_TXSENT));
                }
                self.acknowledge_interrupta_txsent(Ghost(pre));
                proof {
                    assert(saw_reg_bit(new_ops(pre, self.log()), Register::Interrupta, INTA_TXSENT));
                }
                res = Ok(());
                break ;
            }
            if irqa.i_retryfail() {
                proof {
                    assert(saw_reg_bit(new_ops(pre, self.log()), Register::Interrupta, INTA_RETRYFAIL));
                }
                self.acknowledge_interrupta_retryfail(Ghost(pre));
                res = Err(TxError::Discarded);
                break ;
            }
            if irqa.i_hardrst() {
                proof {
                    assert(saw_reg_bit(
                        new_ops(pre, self.log()),
                        Register::Interrupta,
                        INTA_HARDRST,
                    ));
                }
                res = Err(TxError::HardReset);
                break ;
            }
            let ghost bi = self.log();
            let read_i = self.ll.read(iop);
            proof {
                lemma_track(pre, bi, self.log(), self.log().last());
            }
            let irq = match read_i {
                Ok(v) => v,
                Err(_) => {
                    res = Err(TxError::Discarded);
                    break ;
                },
            };
            if irq.i_collision() {
                proof {
                    assert(saw_reg_bit(
                        new_ops(pre, self.log()),
                        Register::Interrupt,
                        INT_COLLISION,
                    ));
                }
                // acknowledge the collision; a failure of the
                // acknowledgement is deliberately ignored
                let ghost ba = self.log();
                let ack = self.ll.read(iop);
                proof {
                    lemma_track(pre, ba, self.log(), self.log().last());
                }
                if let Ok(mut a) = ack {
                    let ghost araw = a.raw();
                    a.set_i_collision(true);
                    proof {
                        lemma_or_sets_bit(araw, INT_COLLISION);
                    }
                    let ghost bw = self.log();
                    let _ = self.ll.write(iop, a);
                    proof {
                        lemma_track(pre, bw, self.log(), self.log().last());
                    }
                }
                res = Err(TxError::Discarded);
                break ;
            }
            if waited >= TX_DEADLINE_MS {
                res = Err(TxError::Discarded);
                break ;
            }
            let ghost bd = self.log();
            self.ll.delay_ms(1);
            proof {
                lemma_track(pre, bd, self.log(), self.log().last());
            }
            waited = waited + 1;
        }

        self.release_oscillator(Ghost(pre));
        res
    }

    /// Clears the internal-oscillator-enable bit again by
    /// read-modify-write; a failure of either transaction is deliberately
    /// ignored, so that it cannot mask the result being reported.
    fn release_oscillator(&mut self, Ghost(pre): Ghost<Seq<BusOp>>)
        requires
            pre.is_prefix_of(old(self).log()),
        ensures
            pre.is_prefix_of(final(self).log()),
            ({
                let s0 = new_ops(pre, old(self).log());
                let s = new_ops(pre, final(self).log());
                &&& s0.is_prefix_of(s)
                &&& fifo_writes(s) == fifo_writes(s0)
                &&& fifo_reads(s) == fifo_reads(s0)
                &&& forall|reg: Register, mask: u8|
                    #[trigger] saw_reg_bit(s0, reg, mask) ==> saw_reg_bit(s, reg, mask)
                &&& forall|reg: Register, mask: u8|
                    reg != Register::Power && #[trigger] saw_reg_bit(s, reg, mask)
                        ==> saw_reg_bit(s0, reg, mask)
                &&& forall|reg: Register|
                    reg != Register::Power ==> #[trigger] reg_writes(s, reg) == reg_writes(
                        s0,
                        reg,
                    )
                &&& forall|reg: Register|
                    reg != Register::Power ==> #[trigger] reg_reads(s, reg) == reg_reads(
                        s0,
                        reg,
                    )
                &&& forall|reg: Register|
                    reg != Register::Power ==> #[trigger] reg_ops_all_ok(s, reg)
                        == reg_ops_all_ok(s0, reg)
                &&& (reg_ops_all_ok(s, Register::Power) ==> reg_ops_all_ok(
                    s0,
                    Register::Power,
                ))
                &&& (reg_ops_all_ok(s, Register::Power) && reg_writes(s, Register::Power).len()
                    > 0 ==> !spec_bit(reg_writes(s, Register::Power).last(), PWR_OSC))
            }),
    {
        let pop = self.ll.power();
        let ghost b0 = self.log();
        let read_pwr = self.ll.read(pop);
        proof {
            lemma_track(pre, b0, self.log(), self.log().last());
        }
        if let Ok(v) = read_pwr {
            let mut off = v;
            off.set_pwr_3_internal_oscillator_enable(false);
            proof {
                lemma_and_not_clears_bit(v.raw(), PWR_OSC);
            }
            let ghost b1 = self.log();
            let _ = self.ll.write(pop, off);
            proof {
                lemma_track(pre, b1, self.log(), self.log().last());
            }
        }
        proof {
            assert(new_ops(pre, old(self).log()).is_prefix_of(new_ops(pre, self.log()))) by {
                assert(new_ops(pre, self.log()).subrange(
                    0,
                    new_ops(pre, old(self).log()).len() as int,
                ) =~= new_ops(pre, old(self).log()));
            }
        }
    }

    /// Acknowledges the packet-sent interrupt by read-modify-write; a
    /// failure of either transaction is deliberately ignored.
    fn acknowledge_interrupta_txsent(&mut self, Ghost(pre): Ghost<Seq<BusOp>>)
        requires
            pre.is_prefix_of(old(self).log()),
        ensures
            pre.is_prefix_of(final(self).log()),
            ({
                let s0 = new_ops(pre, old(self).log());
                let s = new_ops(pre, final(self).log());
                &&& s0.is_prefix_of(s)
                &&& fifo_writes(s) == fifo_writes(s0)
                &&& fifo_reads(s) == fifo_reads(s0)
                &&& forall|reg: Register, mask: u8|
                    #[trigger] saw_reg_bit(s0, reg, mask) ==> saw_reg_bit(s, reg, mask)
                &&& forall|reg: Register, mask: u8|
                    reg != Register::Interrupta && #[trigger] saw_reg_bit(s, reg, mask)
                        ==> saw_reg_bit(s0, reg, mask)
                &&& forall|reg: Register|
                    reg != Register::Interrupta ==> #[trigger] reg_writes(s, reg) == reg_writes(
                        s0,
                        reg,
                    )
                &&& forall|reg: Register|
                    reg != Register::Interrupta ==> #[trigger] reg_reads(s, reg) == reg_reads(
                        s0,
                        reg,
                    )
                &&& forall|reg: Register|
                    reg != Register::Interrupta ==> #[trigger] reg_ops_all_ok(s, reg)
                        == reg_ops_all_ok(s0, reg)
                &&& (reg_ops_all_ok(s, Register::Interrupta) ==> reg_ops_all_ok(
                    s0,
                    Register::Interrupta,
                ))
                &&& ((reg_writes(s, Register::Interrupta) == reg_writes(s0, Register::Interrupta)
                    && !reg_ops_all_ok(s, Register::Interrupta)) || (exists|v: u8|
                    spec_bit(v, INTA_TXSENT) && reg_writes(s, Register::Interrupta) == reg_writes(
                        s0,
                        Register::Interrupta,
                    ).push(v)))
            }),
    {
        let iaop = self.ll.interrupta();
        let ghost b0 = self.log();
        let ack = self.ll.read(iaop);
        proof {
            lemma_track(pre, b0, self.log(), self.log().last());
        }
        if let Ok(mut a) = ack {
            let ghost before_bit = a.raw();
            a.set_i_txsent(true);
            proof {
                lemma_or_sets_bit(before_bit, INTA_TXSENT);
            }
            let ghost b1 = self.log();
            let _ = self.ll.write(iaop, a);
            proof {
                lemma_track(pre, b1, self.log(), self.log().last());
            }
        }
        proof {
            assert(new_ops(pre, old(self).log()).is_prefix_of(new_ops(pre, self.log()))) by {
                assert(new_ops(pre, self.log()).subrange(
                    0,
                    new_ops(pre, old(self).log()).len() as int,
                ) =~= new_ops(pre, old(self).log()));
            }
        }
    }

    /// Acknowledges the retry-failure interrupt by read-modify-write; a
    /// failure of either transaction is deliberately ignored.
    fn acknowledge_interrupta_retryfail(&mut self, Ghost(pre): Ghost<Seq<BusOp>>)
        requires
            pre.is_prefix_of(old(self).log()),
        ensures
            pre.is_prefix_of(final(self).log()),
            ({
                let s0 = new_ops(pre, old(self).log());
                let s = new_ops(pre, final(self).log());
                &&& s0.is_prefix_of(s)
                &&& fifo_writes(s) == fifo_writes(s0)
                &&& fifo_reads(s) == fifo_reads(s0)
                &&& forall|reg: Register, mask: u8|
                    #[trigger] saw_reg_bit(s0, reg, mask) ==> saw_reg_bit(s, reg, mask)
                &&& forall|reg: Register, mask: u8|
                    reg != Register::Interrupta && #[trigger] saw_reg_bit(s, reg, mask)
                        ==> saw_reg_bit(s0, reg, mask)
                &&& forall|reg: Register|
                    reg != Register::Interrupta ==> #[trigger] reg_writes(s, reg) == reg_writes(
                        s0,
                        reg,
                    )
                &&& forall|reg: Register|
                    reg != Register::Interrupta ==> #[trigger] reg_reads(s, reg) == reg_reads(
                        s0,
                        reg,
                    )
                &&& forall|reg: Register|
                    reg != Register::Interrupta ==> #[trigger] reg_ops_all_ok(s, reg)
                        == reg_ops_all_ok(s0, reg)
                &&& (reg_ops_all_ok(s, Register::Interrupta) ==> reg_ops_all_ok(
                    s0,
                    Register::Interrupta,
                ))
                &&& ((reg_writes(s, Register::Interrupta) == reg_writes(s0, Register::Interrupta)
                    && !reg_ops_all_ok(s, Register::Interrupta)) || (exists|v: u8|
                    spec_bit(v, INTA_RETRYFAIL) && reg_writes(s, Register::Interrupta) == reg_writes(
                        s0,
                        Register::Interrupta,
                    ).push(v)))
            }),
    {
        let iaop = self.ll.interrupta();
        let ghost b0 = self.log();
        let ack = self.ll.read(iaop);
        proof {
            lemma_track(pre, b0, self.log(), self.log().last());
        }
        if let Ok(mut a) = ack {
            let ghost before_bit = a.raw();
            a.set_i_retryfail(true);
            proof {
                lemma_or_sets_bit(before_bit, INTA_RETRYFAIL);
            }
            let ghost b1 = self.log();
            let _ = self.ll.write(iaop, a);
            proof {
                lemma_track(pre, b1, self.log(), self.log().last());
            }
        }
        proof {
            assert(new_ops(pre, old(self).log()).is_prefix_of(new_ops(pre, self.log()))) by {
                assert(new_ops(pre, self.log()).subrange(
                    0,
                    new_ops(pre, old(self).log()).len() as int,
                ) =~= new_ops(pre, old(self).log()));
            }
        }
    }

    /// Receives one PD message into `buffer`, whose length is the
    /// destination capacity: polls, once per millisecond up to the
    /// deadline, for a hard reset (highest-priority exit) or the hardware
    /// CRC-check-passed interrupt; then reads one token byte from the FIFO
    /// and validates it against the Start-of-Packet pattern, reads the
    /// two-byte header, derives the message length from it, reads the
    /// payload, and drains the four hardware CRC bytes.  On a discard the
    /// receive FIFO is flushed best-effort and the destination is left
    /// untouched.
    ///
    /// Over the suffix `s` of bus operations this call appends: the result
    /// is `Ok(n)` exactly when the CRC gate passed, the token was valid,
    /// the declared length fitted and every transaction succeeded; the
    /// FIFO reads of `s` are then exactly one valid token byte, the two
    /// header bytes that declare length `n`, the payload, and four CRC
    /// bytes — `n + 5` bytes in all — with the message placed at the
    /// front of `buffer`.  An observed hard reset forces the `HardReset`
    /// result, and nothing is read from the FIFO before the CRC-check
    /// interrupt was observed — a bare timeout on a cooperating bus comes
    /// only after more interrupt polls than the deadline allows.  A token
    /// byte outside the Start-of-Packet pattern, and a header declaring
    /// more than the destination holds, each discard the message with
    /// exactly one RX-flush write (when the bus cooperates); the observed
    /// CRC-check interrupt is acknowledged by exactly one write when the
    /// bus cooperates; and the FIFO is never written.
    pub fn receive(&mut self, buffer: &mut Vec<u8>) -> (r: Result<usize, RxError>)
        ensures
            old(self).log().is_prefix_of(final(self).log()),
            final(buffer)@.len() == old(buffer)@.len(),
            r is Err ==> final(buffer)@ == old(buffer)@,
            ({
                let s = new_ops(old(self).log(), final(self).log());
                let rds = fifo_reads(s);
                &&& s.len() >= 1
                &&& (r == Err::<usize, RxError>(RxError::HardReset) ==> saw_reg_bit(
                    s,
                    Register::Interrupta,
                    INTA_HARDRST,
                ))
                &&& (!saw_reg_bit(s, Register::Interrupta, INTA_HARDRST) && !saw_reg_bit(
                    s,
                    Register::Interrupt,
                    INT_CRC_CHK,
                ) ==> r == Err::<usize, RxError>(RxError::Discarded))
                &&& (r is Ok ==> saw_reg_bit(s, Register::Interrupt, INT_CRC_CHK))
                &&& (r matches Ok(n) ==> {
                    &&& rds.len() == (if n > 2 { 4int } else { 3int })
                    &&& rds[0].len() == 1 && spec_sop_token(rds[0][0])
                    &&& rds[1].len() == 2
                    &&& n == spec_total_message_len(rds[1][0], rds[1][1])
                    &&& n <= old(buffer)@.len()
                    &&& (n > 2 ==> rds[2].len() == n - 2)
                    &&& rds.last().len() == 4
                    &&& total_len(rds) == n + 5
                    &&& final(buffer)@ == rds[1] + (if n > 2 {
                        rds[2]
                    } else {
                        Seq::<u8>::empty()
                    }) + old(buffer)@.skip(n as int)
                })
                &&& (rds.len() >= 1 && rds[0].len() == 1 && !spec_sop_token(rds[0][0]) ==> {
                    &&& r == Err::<usize, RxError>(RxError::Discarded)
                    &&& forall|i: int|
                        0 <= i < reg_writes(s, Register::Control1).len() ==> spec_bit(
                            #[trigger] reg_writes(s, Register::Control1)[i],
                            CTRL1_RX_FLUSH,
                        )
                    &&& reg_writes(s, Register::Control1).len() <= 1
                    &&& (reg_ops_all_ok(s, Register::Control1) ==> reg_writes(
                        s,
                        Register::Control1,
                    ).len() == 1)
                })
                &&& (rds.len() >= 2 && rds[1].len() == 2 && spec_total_message_len(
                    rds[1][0],
                    rds[1][1],
                ) > old(buffer)@.len() ==> {
                    &&& r == Err::<usize, RxError>(RxError::Discarded)
                    &&& forall|i: int|
                        0 <= i < reg_writes(s, Register::Control1).len() ==> spec_bit(
                            #[trigger] reg_writes(s, Register::Control1)[i],
                            CTRL1_RX_FLUSH,
                        )
                    &&& reg_writes(s, Register::Control1).len() <= 1
                    &&& (reg_ops_all_ok(s, Register::Control1) ==> reg_writes(
                        s,
                        Register::Control1,
                    ).len() == 1)
                })
                &&& fifo_writes(s) == Seq::<Seq<u8>>::empty()
                &&& (saw_reg_bit(s, Register::Interrupta, INTA_HARDRST) ==> r == Err::<
                    usize,
                    RxError,
                >(RxError::HardReset))
                &&& (!saw_reg_bit(s, Register::Interrupt, INT_CRC_CHK) ==> rds
                    == Seq::<Seq<u8>>::empty())
                &&& (saw_reg_bit(s, Register::Interrupt, INT_CRC_CHK) && ops_all_ok(s)
                    ==> rds.len() >= 1)
                &&& (ops_all_ok(s) && !saw_reg_bit(s, Register::Interrupta, INTA_HARDRST)
                    && !saw_reg_bit(s, Register::Interrupt, INT_CRC_CHK) ==> reg_reads(
                    s,
                    Register::Interrupta,
                ).len() > RX_DEADLINE_MS)
                &&& (ops_all_ok(s) && rds.len() >= 2 && rds[0].len() == 1 && spec_sop_token(
                    rds[0][0],
                ) && rds[1].len() == 2 && spec_total_message_len(rds[1][0], rds[1][1]) <= old(
                    buffer,
                )@.len() ==> r is Ok)
                &&& (saw_reg_bit(s, Register::Interrupt, INT_CRC_CHK) && reg_ops_all_ok(
                    s,
                    Register::Interrupt,
                ) ==> reg_writes(s, Register::Interrupt).len() == 1 && spec_bit(
                    reg_writes(s, Register::Interrupt)[0],
                    INT_CRC_CHK,
                ))
            }),
    {
        let ghost pre = self.log();
        let ghost bsnap = buffer@;
        proof {
            assert(new_ops(pre, self.log()) =~= Seq::<BusOp>::empty());
            assert(pre.is_prefix_of(self.log())) by {
                assert(self.log().subrange(0, pre.len() as int) =~= pre);
            }
        }
        let iaop = self.ll.interrupta();
        let iop = self.ll.interrupt();
        let mut waited: u32 = 0;
        let mut gate: Result<(), RxError> = Err(RxError::Discarded);
        loop
            invariant_except_break
                !saw_reg_bit(new_ops(pre, self.log()), Register::Interrupta, INTA_HARDRST),
                !saw_reg_bit(new_ops(pre, self.log()), Register::Interrupt, INT_CRC_CHK),
                reg_writes(new_ops(pre, self.log()), Register::Interrupt) == Seq::<u8>::empty(),
                reg_reads(new_ops(pre, self.log()), Register::Interrupta).len() == waited,
            invariant
                waited <= RX_DEADLINE_MS,
                iaop.spec_reg() == Register::Interrupta,
                iop.spec_reg() == Register::Interrupt,
                pre.is_prefix_of(self.log()),
                fifo_reads(new_ops(pre, self.log())) == Seq::<Seq<u8>>::empty(),
                fifo_writes(new_ops(pre, self.log())) == Seq::<Seq<u8>>::empty(),
                reg_writes(new_ops(pre, self.log()), Register::Control1) == Seq::<u8>::empty(),
            ensures
                pre.is_prefix_of(self.log()),
                new_ops(pre, self.log()).len() >= 1,
                fifo_reads(new_ops(pre, self.log())) == Seq::<Seq<u8>>::empty(),
                fifo_writes(new_ops(pre, self.log())) == Seq::<Seq<u8>>::empty(),
                reg_writes(new_ops(pre, self.log()), Register::Control1) == Seq::<u8>::empty(),
                gate matches Err(e) && e == RxError::HardReset ==> saw_reg_bit(
                    new_ops(pre, self.log()),
                    Register::Interrupta,
                    INTA_HARDRST,
                ),
                saw_reg_bit(new_ops(pre, self.log()), Register::Interrupta, INTA_HARDRST)
                    ==> gate == Err::<(), RxError>(RxError::HardReset),
                !saw_reg_bit(new_ops(pre, self.log()), Register::Interrupta, INTA_HARDRST)
                    && !saw_reg_bit(new_ops(pre, self.log()), Register::Interrupt, INT_CRC_CHK)
                    ==> gate == Err::<(), RxError>(RxError::Discarded),
                gate is Ok <==> saw_reg_bit(
                    new_ops(pre, self.log()),
                    Register::Interrupt,
                    INT_CRC_CHK,
                ),
                ops_all_ok(new_ops(pre, self.log())) && !saw_reg_bit(
                    new_ops(pre, self.log()),
                    Register::Interrupta,
                    INTA_HARDRST,
                ) && !saw_reg_bit(new_ops(pre, self.log()), Register::Interrupt, INT_CRC_CHK)
                    ==> reg_reads(new_ops(pre, self.log()), Register::Interrupta).len()
                    > RX_DEADLINE_MS,
                gate is Ok && reg_ops_all_ok(new_ops(pre, self.log()), Register::Interrupt)
                    ==> reg_writes(new_ops(pre, self.log()), Register::Interrupt).len() == 1
                    && spec_bit(
                    reg_writes(new_ops(pre, self.log()), Register::Interrupt)[0],
                    INT_CRC_CHK,
                ),
            decreases RX_DEADLINE_MS - waited,
        {
            let ghost bl = self.log();
            let read_ia = self.ll.read(iaop);
            proof {
                lemma_track(pre, bl, self.log(), self.log().last());
            }
            let irqa = match read_ia {
                Ok(v) => v,
                Err(_) => {
                    gate = Err(RxError::Discarded);
                    break ;
                },
            };
            if irqa.i_hardrst() {
                proof {
                    assert(saw_reg_bit(
                        new_ops(pre, self.log()),
                        Register::Interrupta,
                        INTA_HARDRST,
                    ));
                }
                gate = Err(RxError::HardReset);
                break ;
            }
            let ghost bi = self.log();
            let read_i = self.ll.read(iop);
            proof {
                lemma_track(pre, bi, self.log(), self.log().last());
            }
            let irq = match read_i {
                Ok(v) => v,
                Err(_) => {
                    gate = Err(RxError::Discarded);
                    break ;
                },
            };
            if irq.i_crc_chk() {
                proof {
                    assert(saw_reg_bit(new_ops(pre, self.log()), Register::Interrupt, INT_CRC_CHK));
                }
                // acknowledge the interrupt; a failure of the
                // acknowledgement is deliberately ignored
                let ghost ba = self.log();
                let ack = self.ll.read(iop);
                proof {
                    lemma_track(pre, ba, self.log(), self.log().last());
                }
                if let Ok(mut a) = ack {
                    let ghost araw = a.raw();
                    a.set_i_crc_chk(true);
                    proof {
                        lemma_or_sets_bit(araw, INT_CRC_CHK);
                    }
                    let ghost bw = self.log();
                    let _ = self.ll.write(iop, a);
                    proof {
                        lemma_track(pre, bw, self.log(), self.log().last());
                    }
                }
                gate = Ok(());
                break ;
            }
            if waited >= RX_DEADLINE_MS {
                gate = Err(RxError::Discarded);
                break ;
            }
            let ghost bd = self.log();
            self.ll.delay_ms(1);
            proof {
                lemma_track(pre, bd, self.log(), self.log().last());
            }
            waited = waited + 1;
        }
        if let Err(e) = gate {
            return Err(e);
        }

        // one token byte, validated against the Start-of-Packet pattern
        let fop = self.ll.fifo();
        let ghost bt = self.log();
        let token_read = self.ll.read_buffer(fop, 1);
        proof {
            lemma_track(pre, bt, self.log(), self.log().last());
        }
        let token = match token_read {
            Ok(v) => v,
            Err(_) => {
                return Err(RxError::Discarded);
            },
        };
        if !sop_token_valid(token[0]) {
            proof {
                assert(saw_reg_bit(new_ops(pre, self.log()), Register::Interrupt, INT_CRC_CHK));
            }
            self.flush_rx(Ghost(pre));
            proof {
                assert(saw_reg_bit(new_ops(pre, self.log()), Register::Interrupt, INT_CRC_CHK));
            }
            return Err(RxError::Discarded);
        }

        // two header bytes; bits 12 to 14 of the little-endian header
        // value give the number of data objects
        let ghost bh = self.log();
        let header_read = self.ll.read_buffer(fop, 2);
        proof {
            lemma_track(pre, bh, self.log(), self.log().last());
        }
        let header = match header_read {
            Ok(v) => v,
            Err(_) => {
                return Err(RxError::Discarded);
            },
        };
        let total = total_message_len(header[0], header[1]);
        if total > buffer.len() {
            proof {
                assert(saw_reg_bit(new_ops(pre, self.log()), Register::Interrupt, INT_CRC_CHK));
            }
            self.flush_rx(Ghost(pre));
            proof {
                assert(saw_reg_bit(new_ops(pre, self.log()), Register::Interrupt, INT_CRC_CHK));
            }
            return Err(RxError::Discarded);
        }

        // the payload, read separately so that nothing is placed in the
        // destination unless the whole message arrives
        let payload_len = total - 2;
        let mut payload: Vec<u8> = Vec::new();
        if payload_len > 0 {
            let ghost bp = self.log();
            let payload_read = self.ll.read_buffer(fop, payload_len);
            proof {
                lemma_track(pre, bp, self.log(), self.log().last());
            }
            payload = match payload_read {
                Ok(v) => v,
                Err(_) => {
                    return Err(RxError::Discarded);
                },
            };
        }

        // drain the four hardware CRC bytes; the CRC was already checked
        // by the chip before the CRC-check interrupt fired
        let ghost bc = self.log();
        let crc_read = self.ll.read_buffer(fop, 4);
        proof {
            lemma_track(pre, bc, self.log(), self.log().last());
        }
        let crc = match crc_read {
            Ok(v) => v,
            Err(_) => {
                return Err(RxError::Discarded);
            },
        };

        // the message is complete: place header and payload in the
        // destination
        buffer[0] = header[0];
        buffer[1] = header[1];
        let mut i: usize = 0;
        while i < payload_len
            invariant
                i <= payload_len,
                payload_len <= 28,
                payload_len == payload@.len(),
                2 + payload_len <= buffer@.len(),
                buffer@.len() == bsnap.len(),
                header@.len() == 2,
                buffer@[0] == header@[0],
                buffer@[1] == header@[1],
                forall|j: int| 0 <= j < i ==> buffer@[2 + j] == payload@[j],
                forall|j: int| 2 + payload_len <= j < buffer@.len() ==> buffer@[j] == bsnap[j],
            decreases payload_len - i,
        {
            buffer[2 + i] = payload[i];
            i = i + 1;
        }
        proof {
            assert(buffer@ =~= header@ + payload@ + bsnap.skip(total as int));
            let e = Seq::<Seq<u8>>::empty();
            let r1 = e.push(token@);
            let r2 = r1.push(header@);
            let r3 = if payload_len > 0 {
                r2.push(payload@)
            } else {
                r2
            };
            let r4 = r3.push(crc@);
            lemma_total_len_push(e, token@);
            lemma_total_len_push(r1, header@);
            if payload_len > 0 {
                lemma_total_len_push(r2, payload@);
            }
            lemma_total_len_push(r3, crc@);
            assert(total_len(e) == 0);
            assert(fifo_reads(new_ops(pre, self.log())) == r4);
        }
        Ok(total)
    }

    /// Flushes the receive FIFO best-effort by setting the `rx_flush` bit
    /// of control register 1 by read-modify-write; a failure of either
    /// transaction is deliberately ignored.
    fn flush_rx(&mut self, Ghost(pre): Ghost<Seq<BusOp>>)
        requires
            pre.is_prefix_of(old(self).log()),
        ensures
            pre.is_prefix_of(final(self).log()),
            ({
                let s0 = new_ops(pre, old(self).log());
                let s = new_ops(pre, final(self).log());
                &&& s0.is_prefix_of(s)
                &&& fifo_writes(s) == fifo_writes(s0)
                &&& fifo_reads(s) == fifo_reads(s0)
                &&& forall|reg: Register, mask: u8|
                    #[trigger] saw_reg_bit(s0, reg, mask) ==> saw_reg_bit(s, reg, mask)
                &&& forall|reg: Register, mask: u8|
                    reg != Register::Control1 && #[trigger] saw_reg_bit(s, reg, mask)
                        ==> saw_reg_bit(s0, reg, mask)
                &&& forall|reg: Register|
                    reg != Register::Control1 ==> #[trigger] reg_writes(s, reg) == reg_writes(
                        s0,
                        reg,
                    )
                &&& forall|reg: Register|
                    reg != Register::Control1 ==> #[trigger] reg_reads(s, reg) == reg_reads(
                        s0,
                        reg,
                    )
                &&& forall|reg: Register|
                    reg != Register::Control1 ==> #[trigger] reg_ops_all_ok(s, reg)
                        == reg_ops_all_ok(s0, reg)
                &&& ((reg_writes(s, Register::Control1) == reg_writes(s0, Register::Control1)
                    && !reg_ops_all_ok(s, Register::Control1)) || (exists|v: u8|
                    spec_bit(v, CTRL1_RX_FLUSH) && reg_writes(s, Register::Control1)
                        == reg_writes(s0, Register::Control1).push(v)))
            }),
    {
        let cop = self.ll.control_1();
        let ghost b0 = self.log();
        let read_c1 = self.ll.read(cop);
        proof {
            lemma_track(pre, b0, self.log(), self.log().last());
        }
        if let Ok(v) = read_c1 {
            let mut c1 = v;
            c1.set_rx_flush(true);
            proof {
                lemma_or_sets_bit(v.raw(), CTRL1_RX_FLUSH);
            }
            let ghost b1 = self.log();
            let _ = self.ll.write(cop, c1);
            proof {
                lemma_track(pre, b1, self.log(), self.log().last());
            }
        }
        proof {
            assert(new_ops(pre, old(self).log()).is_prefix_of(new_ops(pre, self.log()))) by {
                assert(new_ops(pre, self.log()).subrange(
                    0,
                    new_ops(pre, old(self).log()).len() as int,
                ) =~= new_ops(pre, old(self).log()));
            }
        }
    }

    /// Whether the bring-up identity check found an unrecognized chip:
    /// the third appended operation read the device identification
    /// register and its version field lies outside the known set of
    /// silicon revisions.
    pub open spec fn device_id_rejected(s: Seq<BusOp>) -> bool {
        &&& s.len() >= 3
        &&& is_reg_read(s[2], Register::DeviceId.spec_address())
        &&& Fusb302Version::spec_try_from_raw(
            spec_field(reg_read_value(s[2]), 4, 0x0F),
        ) is Err
    }

    /// Brings the chip to its operating state: software reset and settle
    /// time, identity check of the silicon version, power-up of all
    /// rails, unmasking of every interrupt, hardware auto-retry
    /// configuration (two retries, no automatic soft or hard reset),
    /// receive-FIFO flush, CC-pin detection, and a final PD-logic-only
    /// reset.  The first failure aborts the sequence and leaves the chip
    /// state undefined; the caller must not proceed to the frame
    /// transport after an error.
    ///
    /// Over the suffix `s` of bus operations this call appends: an
    /// unrecognized silicon version is reported as
    /// [`FusbError::UnknownDevice`], and then nothing follows the
    /// identity read — the chip is not touched further; a transport
    /// error is reported only when some transaction actually failed.  On
    /// success the suffix is pinned position by position: the
    /// software-reset write, the settle delay, the identity read, the
    /// power-rail write, zero to all three interrupt masks, an all-clear
    /// control register 0, the auto-retry configuration, the
    /// receive-flush bit, the two CC probes with their settle delays and
    /// charge-level reads, the switch configuration of the winning line,
    /// and the PD-logic-reset write last.
    pub fn init(&mut self) -> (r: Result<(), FusbError>)
        ensures
            old(self).log().is_prefix_of(final(self).log()),
            r matches Err(e) ==> (e matches FusbError::I2c(_) || e == FusbError::UnknownDevice),
            ({
                let s = new_ops(old(self).log(), final(self).log());
                &&& (r matches Err(e) ==> (e matches FusbError::I2c(_) ==> !ops_all_ok(s)))
                &&& (Self::device_id_rejected(s) ==> r == Err::<(), FusbError>(
                    FusbError::UnknownDevice,
                ) && s.len() == 3)
                &&& (r == Err::<(), FusbError>(FusbError::UnknownDevice)
                    ==> Self::device_id_rejected(s))
                &&& (r is Ok ==> {
                    &&& s.len() == 19
                    &&& s[0] == reg_write_op(Register::Reset.spec_address(), 0x01, true)
                    &&& s[1] == (BusOp::Delay { ms: SETTLE_MS })
                    &&& is_reg_read(s[2], Register::DeviceId.spec_address())
                    &&& Fusb302Version::spec_try_from_raw(
                        spec_field(reg_read_value(s[2]), 4, 0x0F),
                    ) is Ok
                    &&& s[3] == reg_write_op(Register::Power.spec_address(), 0x0F, true)
                    &&& s[4] == reg_write_op(Register::Mask.spec_address(), 0x00, true)
                    &&& s[5] == reg_write_op(Register::Maska.spec_address(), 0x00, true)
                    &&& s[6] == reg_write_op(Register::Maskb.spec_address(), 0x00, true)
                    &&& s[7] == reg_write_op(Register::Control0.spec_address(), 0x00, true)
                    &&& s[8] == reg_write_op(Register::Control3.spec_address(), 0x05, true)
                    &&& s[9] == reg_write_op(Register::Control1.spec_address(), 0x04, true)
                    &&& s[10] == reg_write_op(Register::Switches0.spec_address(), 0x07, true)
                    &&& s[11] == (BusOp::Delay { ms: SETTLE_MS })
                    &&& is_reg_read(s[12], Register::Status0.spec_address())
                    &&& s[13] == reg_write_op(Register::Switches0.spec_address(), 0x0B, true)
                    &&& s[14] == (BusOp::Delay { ms: SETTLE_MS })
                    &&& is_reg_read(s[15], Register::Status0.spec_address())
                    &&& (s[16] == reg_write_op(Register::Switches1.spec_address(), 0x05, true)
                        <==> Self::measured_bc_level(s[12]) > Self::measured_bc_level(s[15]))
                    &&& (s[16] == reg_write_op(Register::Switches1.spec_address(), 0x05, true)
                        || s[16] == reg_write_op(Register::Switches1.spec_address(), 0x06, true))
                    &&& s[17] == reg_write_op(
                        Register::Switches0.spec_address(),
                        if s[16] == reg_write_op(Register::Switches1.spec_address(), 0x05, true) {
                            0x07u8
                        } else {
                            0x0Bu8
                        },
                        true,
                    )
                    &&& s[18] == reg_write_op(Register::Reset.spec_address(), 0x02, true)
                    &&& reg_writes(s, Register::Reset) == seq![0x01u8, 0x02u8]
                    &&& reg_writes(s, Register::Power) == seq![0x0Fu8]
                    &&& reg_writes(s, Register::Mask) == seq![0x00u8]
                    &&& reg_writes(s, Register::Maska) == seq![0x00u8]
                    &&& reg_writes(s, Register::Maskb) == seq![0x00u8]
                    &&& reg_writes(s, Register::Control0) == seq![0x00u8]
                    &&& reg_writes(s, Register::Control3) == seq![0x05u8]
                    &&& reg_writes(s, Register::Control1) == seq![0x04u8]
                    &&& (reg_writes(s, Register::Switches1) == seq![0x05u8] || reg_writes(
                        s,
                        Register::Switches1,
                    ) == seq![0x06u8])
                    &&& reg_writes(s, Register::Switches0).len() == 3
                })
            }),
    {
        let ghost pre = self.log();
        proof {
            assert(new_ops(pre, self.log()) =~= Seq::<BusOp>::empty());
            assert(pre.is_prefix_of(self.log())) by {
                assert(self.log().subrange(0, pre.len() as int) =~= pre);
            }
        }

        // full software reset, then let the chip settle
        let rstop = self.ll.reset();
        let mut rst = Reset::new();
        rst.set_sw_res(true);
        proof {
            assert(0u8 | 0x01 == 0x01) by (bit_vector);
        }
        let ghost b0 = self.log();
        let w = self.ll.write(rstop, rst);
        proof {
            lemma_track(pre, b0, self.log(), self.log().last());
        }
        if let Err(e) = w {
            return Err(e);
        }
        let ghost b1 = self.log();
        self.ll.delay_ms(SETTLE_MS);
        proof {
            lemma_track(pre, b1, self.log(), self.log().last());
        }

        // verify the device identity: the version must be a known
        // silicon revision, anything else aborts the bring-up
        let idop = self.ll.device_id();
        let ghost b2 = self.log();
        let id_read = self.ll.read(idop);
        proof {
            lemma_track(pre, b2, self.log(), self.log().last());
        }
        let device = match id_read {
            Ok(d) => d,
            Err(e) => {
                return Err(e);
            },
        };
        if device.version_id().is_err() {
            return Err(FusbError::UnknownDevice);
        }

        // turn on all power rails
        let pop = self.ll.power();
        let mut pwr = Power::new();
        pwr.set_pwr_0_bandgap_and_wake_enable(true);
        pwr.set_pwr_1_receiver_and_measure_refs_enable(true);
        pwr.set_pwr_2_measure_block_power_enable(true);
        pwr.set_pwr_3_internal_oscillator_enable(true);
        proof {
            assert((((0u8 | 0x01) | 0x02) | 0x04) | 0x08 == 0x0F) by (bit_vector);
        }
        let ghost b3 = self.log();
        let w = self.ll.write(pop, pwr);
        proof {
            lemma_track(pre, b3, self.log(), self.log().last());
        }
        if let Err(e) = w {
            return Err(e);
        }

        // zero all three interrupt masks: every interrupt observable
        let ghost b4 = self.log();
        let w = self.ll.write(self.ll.mask(), Mask::new());
        proof {
            lemma_track(pre, b4, self.log(), self.log().last());
        }
        if let Err(e) = w {
            return Err(e);
        }
        let ghost b5 = self.log();
        let w = self.ll.write(self.ll.maska(), Maska::new());
        proof {
            lemma_track(pre, b5, self.log(), self.log().last());
        }
        if let Err(e) = w {
            return Err(e);
        }
        let ghost b6 = self.log();
        let w = self.ll.write(self.ll.maskb(), Maskb::new());
        proof {
            lemma_track(pre, b6, self.log(), self.log().last());
        }
        if let Err(e) = w {
            return Err(e);
        }

        // clear the global interrupt mask bit
        let mut c0 = Control0::new();
        c0.set_int_mask(false);
        proof {
            assert(0u8 & !0x20 == 0x00) by (bit_vector);
        }
        let ghost b7 = self.log();
        let w = self.ll.write(self.ll.control_0(), c0);
        proof {
            lemma_track(pre, b7, self.log(), self.log().last());
        }
        if let Err(e) = w {
            return Err(e);
        }

        // hardware auto-retry: two retries, and neither automatic soft
        // reset nor automatic hard reset — those belong to the policy
        // layer above
        let mut c3 = Control3::new();
        c3.set_auto_retry(true);
        c3.set_n_retries(RetryCount::TwoRetries);
        c3.set_auto_softreset(false);
        c3.set_auto_hardreset(false);
        proof {
            assert(((((0u8 | 0x01) & !(0x03u8 << 1u8)) | ((2u8 & 0x03) << 1u8)) & !0x08) & !0x10
                == 0x05) by (bit_vector);
        }
        let ghost b8 = self.log();
        let w = self.ll.write(self.ll.control_3(), c3);
        proof {
            lemma_track(pre, b8, self.log(), self.log().last());
        }
        if let Err(e) = w {
            return Err(e);
        }

        // flush the receive FIFO
        let mut c1 = Control1::new();
        c1.set_rx_flush(true);
        proof {
            assert(0u8 | 0x04 == 0x04) by (bit_vector);
        }
        let ghost b9 = self.log();
        let w = self.ll.write(self.ll.control_1(), c1);
        proof {
            lemma_track(pre, b9, self.log(), self.log().last());
        }
        if let Err(e) = w {
            return Err(e);
        }

        // detect and select the connected CC line
        let ghost mid = self.log();
        let ghost head = new_ops(pre, mid);
        let detected = self.detect_cc_pin();
        proof {
            assert(pre.is_prefix_of(self.log())) by {
                assert(self.log().subrange(0, pre.len() as int) =~= pre);
            }
            assert(new_ops(pre, self.log()) =~= head + new_ops(mid, self.log()));
        }
        if let Err(e) = detected {
            proof {
                let s = new_ops(pre, self.log());
                assert(s[2] == head[2]);
                lemma_ops_all_ok_concat(head, new_ops(mid, self.log()));
            }
            return Err(e);
        }
        let ghost tail = new_ops(mid, self.log());
        proof {
            let regs = seq![
                Register::Reset,
                Register::Power,
                Register::Mask,
                Register::Maska,
                Register::Maskb,
                Register::Control0,
                Register::Control3,
                Register::Control1,
                Register::Switches0,
                Register::Switches1,
            ];
            assert forall|k: int| 0 <= k < regs.len() implies reg_writes(
                head + tail,
                #[trigger] regs[k],
            ) == reg_writes(head, regs[k]) + reg_writes(tail, regs[k]) by {
                lemma_writes_to_reg_concat(head, tail, regs[k].spec_address());
            }
            reveal_with_fuel(writes_to_reg, 9);
        }

        // clear the line-specific PD state accumulated while probing
        let mut pdr = Reset::new();
        pdr.set_pd_reset(true);
        proof {
            assert(0u8 | 0x02 == 0x02) by (bit_vector);
        }
        let ghost b10 = self.log();
        let w = self.ll.write(rstop, pdr);
        proof {
            lemma_track(pre, b10, self.log(), self.log().last());
        }
        if let Err(e) = w {
            return Err(e);
        }
        Ok(())
    }

    /// The coarse comparator charge level a successful status-0 read
    /// observed, as a number from 0 to 3.
    pub open spec fn measured_bc_level(op: BusOp) -> u8 {
        BcLvl::spec_from_field(spec_field(reg_read_value(op), 0, 0x03)).spec_to_raw()
    }

    /// Detects which CC pin is connected and configures the switches for
    /// it: for each line in turn, pull-downs are applied to both lines and
    /// voltage measurement is enabled on exactly that line; after a settle
    /// time the charge-level comparator is read.  The line with the higher
    /// level wins (a tie selects the second-probed line); the transmit
    /// switch and the automatic CRC response are then enabled for it and
    /// measurement is re-enabled on it.
    ///
    /// On success the suffix of bus operations this call appends is
    /// exactly: the first probe configuration, a settle delay, a
    /// charge-level read, the second probe configuration, a settle delay,
    /// a charge-level read, the transmit-switch write for the winning
    /// line, and the measurement write for the winning line.
    pub fn detect_cc_pin(&mut self) -> (r: Result<CcPin, FusbError>)
        ensures
            old(self).log().is_prefix_of(final(self).log()),
            r matches Err(e) ==> e matches FusbError::I2c(_) && !ops_all_ok(
                new_ops(old(self).log(), final(self).log()),
            ),
            ({
                let s = new_ops(old(self).log(), final(self).log());
                r matches Ok(pin) ==> {
                    &&& s.len() == 8
                    &&& s[0] == reg_write_op(Register::Switches0.spec_address(), 0x07, true)
                    &&& s[1] == (BusOp::Delay { ms: SETTLE_MS })
                    &&& is_reg_read(s[2], Register::Status0.spec_address())
                    &&& s[3] == reg_write_op(Register::Switches0.spec_address(), 0x0B, true)
                    &&& s[4] == (BusOp::Delay { ms: SETTLE_MS })
                    &&& is_reg_read(s[5], Register::Status0.spec_address())
                    &&& pin == (if Self::measured_bc_level(s[2]) > Self::measured_bc_level(s[5]) {
                        CcPin::Cc1
                    } else {
                        CcPin::Cc2
                    })
                    &&& s[6] == reg_write_op(
                        Register::Switches1.spec_address(),
                        if pin == CcPin::Cc1 {
                            0x05
                        } else {
                            0x06
                        },
                        true,
                    )
                    &&& s[7] == reg_write_op(
                        Register::Switches0.spec_address(),
                        if pin == CcPin::Cc1 {
                            0x07
                        } else {
                            0x0B
                        },
                        true,
                    )
                }
            }),
    {
        let ghost pre = self.log();
        proof {
            assert(new_ops(pre, self.log()) =~= Seq::<BusOp>::empty());
            assert(pre.is_prefix_of(self.log())) by {
                assert(self.log().subrange(0, pre.len() as int) =~= pre);
            }
        }
        let sw0op = self.ll.switches_0();
        let sw1op = self.ll.switches_1();
        let s0op = self.ll.status_0();

        // probe CC1: pull-downs on both lines, measure CC1
        let ghost b0 = self.log();
        let w0 = self.ll.write(sw0op, Self::switches0_probe(true));
        proof {
            lemma_track(pre, b0, self.log(), self.log().last());
        }
        if let Err(e) = w0 {
            return Err(e);
        }
        let ghost b1 = self.log();
        self.ll.delay_ms(SETTLE_MS);
        proof {
            lemma_track(pre, b1, self.log(), self.log().last());
        }
        let ghost b2 = self.log();
        let r1 = self.ll.read(s0op);
        proof {
            lemma_track(pre, b2, self.log(), self.log().last());
        }
        let cc1 = match r1 {
            Ok(v) => Self::bc_lvl_to_u8(v.bc_lvl()),
            Err(e) => {
                return Err(e);
            },
        };

        // probe CC2: pull-downs on both lines, measure CC2
        let ghost b3 = self.log();
        let w1 = self.ll.write(sw0op, Self::switches0_probe(false));
        proof {
            lemma_track(pre, b3, self.log(), self.log().last());
        }
        if let Err(e) = w1 {
            return Err(e);
        }
        let ghost b4 = self.log();
        self.ll.delay_ms(SETTLE_MS);
        proof {
            lemma_track(pre, b4, self.log(), self.log().last());
        }
        let ghost b5 = self.log();
        let r2 = self.ll.read(s0op);
        proof {
            lemma_track(pre, b5, self.log(), self.log().last());
        }
        let cc2 = match r2 {
            Ok(v) => Self::bc_lvl_to_u8(v.bc_lvl()),
            Err(e) => {
                return Err(e);
            },
        };

        // the line with the higher measured voltage is connected
        let selected = if cc1 > cc2 {
            CcPin::Cc1
        } else {
            CcPin::Cc2
        };

        // transmit and automatic CRC response on the winning line
        let ghost b6 = self.log();
        let w2 = self.ll.write(sw1op, Self::switches1_tx(selected));
        proof {
            lemma_track(pre, b6, self.log(), self.log().last());
        }
        if let Err(e) = w2 {
            return Err(e);
        }
        // re-enable measurement on the winning line
        let ghost b7 = self.log();
        let w3 = self.ll.write(sw0op, Self::switches0_probe(matches!(selected, CcPin::Cc1)));
        proof {
            lemma_track(pre, b7, self.log(), self.log().last());
        }
        if let Err(e) = w3 {
            return Err(e);
        }
        Ok(selected)
    }

    /// The probe configuration of switch register 0: pull-downs on both
    /// CC lines and voltage measurement on exactly one of them.
    fn switches0_probe(meas_cc1: bool) -> (r: Switches0)
        ensures
            r.raw() == (if meas_cc1 {
                0x07u8
            } else {
                0x0Bu8
            }),
    {
        let mut v = Switches0::new();
        v.set_pdwn_1(true);
        v.set_pdwn_2(true);
        v.set_meas_cc_1(meas_cc1);
        v.set_meas_cc_2(!meas_cc1);
        proof {
            assert((((0u8 | 0x01) | 0x02) | 0x04) & !0x08 == 0x07) by (bit_vector);
            assert(((((0u8 | 0x01) | 0x02) & !0x04) | 0x08) == 0x0B) by (bit_vector);
        }
        v
    }

    /// The transmit configuration of switch register 1: the BMC driver on
    /// the winning CC line and the automatic GoodCRC response enabled.
    fn switches1_tx(pin: CcPin) -> (r: Switches1)
        ensures
            r.raw() == (if pin == CcPin::Cc1 {
                0x05u8
            } else {
                0x06u8
            }),
    {
        let mut v = Switches1::new();
        v.set_txcc_1(matches!(pin, CcPin::Cc1));
        v.set_txcc_2(matches!(pin, CcPin::Cc2));
        v.set_auto_crc(true);
        proof {
            assert(((0u8 | 0x01) & !0x02) | 0x04 == 0x05) by (bit_vector);
            assert(((0u8 & !0x01) | 0x02) | 0x04 == 0x06) by (bit_vector);
        }
        v
    }

    /// The comparator charge level as a comparable number.
    fn bc_lvl_to_u8(lvl: BcLvl) -> (r: u8)
        ensures
            r == lvl.spec_to_raw(),
    {
        lvl.to_raw()
    }

    /// Signals a PD hard reset: sets the self-clearing send-hard-reset bit
    /// and polls, once per millisecond up to the deadline, for the
    /// hard-reset-sent interrupt, which it acknowledges on success.
    ///
    /// Over the suffix `s` of bus operations this call appends: nothing is
    /// streamed to or read from the FIFO — this is a control-plane-only
    /// operation; when the bus reports every control-register-3
    /// transaction successful, exactly one write went to control register
    /// 3 and it carries the value read back with only the send-hard-reset
    /// bit added; the result is `Ok` exactly when the hard-reset-sent
    /// interrupt was observed, and the interrupt is then acknowledged by
    /// one write when the bus cooperates; if the interrupt was never
    /// observed (a bus failure or deadline expiry), the result is
    /// `Discarded` — the poll loop cannot hang.
    pub fn transmit_hard_reset(&mut self) -> (r: Result<(), TxError>)
        ensures
            old(self).log().is_prefix_of(final(self).log()),
            ({
                let s = new_ops(old(self).log(), final(self).log());
                &&& fifo_writes(s) == Seq::<Seq<u8>>::empty()
                &&& fifo_reads(s) == Seq::<Seq<u8>>::empty()
                &&& (r is Ok <==> saw_reg_bit(s, Register::Interrupta, INTA_HARDSENT))
                &&& (!saw_reg_bit(s, Register::Interrupta, INTA_HARDSENT) ==> r == Err::<
                    (),
                    TxError,
                >(TxError::Discarded))
                &&& (reg_ops_all_ok(s, Register::Control3) ==> reg_reads(
                    s,
                    Register::Control3,
                ).len() == 1 && reg_writes(s, Register::Control3) == seq![
                    reg_reads(s, Register::Control3)[0] | CTRL3_SEND_HARD_RESET,
                ])
                &&& (r is Ok ==> reg_writes(s, Register::Control3).len() == 1)
                &&& forall|i: int|
                    0 <= i < reg_writes(s, Register::Control3).len() ==> spec_bit(
                        #[trigger] reg_writes(s, Register::Control3)[i],
                        CTRL3_SEND_HARD_RESET,
                    )
                &&& (r is Ok && reg_ops_all_ok(s, Register::Interrupta) ==> reg_writes(
                    s,
                    Register::Interrupta,
                ).len() == 1 && spec_bit(reg_writes(s, Register::Interrupta)[0], INTA_HARDSENT))
            }),
    {
        let ghost pre = self.log();
        proof {
            assert(new_ops(pre, self.log()) =~= Seq::<BusOp>::empty());
            assert(pre.is_prefix_of(self.log())) by {
                assert(self.log().subrange(0, pre.len() as int) =~= pre);
            }
        }
        // set the self-clearing bit by read-modify-write
        let c3op = self.ll.control_3();
        let ghost b0 = self.log();
        let read_c3 = self.ll.read(c3op);
        let mut c3 = match read_c3 {
            Ok(v) => v,
            Err(_) => {
                proof {
                    lemma_track(pre, b0, self.log(), self.log().last());
                }
                return Err(TxError::Discarded);
            },
        };
        proof {
            lemma_track(pre, b0, self.log(), self.log().last());
        }
        let ghost raw0 = c3.raw();
        c3.set_send_hard_reset(true);
        proof {
            lemma_or_sets_bit(raw0, CTRL3_SEND_HARD_RESET);
        }
        let ghost b1 = self.log();
        let wrote = self.ll.write(c3op, c3);
        proof {
            lemma_track(pre, b1, self.log(), self.log().last());
        }
        if wrote.is_err() {
            return Err(TxError::Discarded);
        }

        let mut waited: u32 = 0;
        let mut res: Result<(), TxError> = Err(TxError::Discarded);
        loop
            invariant_except_break
                !saw_reg_bit(new_ops(pre, self.log()), Register::Interrupta, INTA_HARDSENT),
                reg_writes(new_ops(pre, self.log()), Register::Interrupta) == Seq::<u8>::empty(),
            invariant
                waited <= HARD_RESET_DEADLINE_MS,
                pre.is_prefix_of(self.log()),
                fifo_writes(new_ops(pre, self.log())) == Seq::<Seq<u8>>::empty(),
                fifo_reads(new_ops(pre, self.log())) == Seq::<Seq<u8>>::empty(),
                reg_reads(new_ops(pre, self.log()), Register::Control3) == seq![raw0],
                reg_writes(new_ops(pre, self.log()), Register::Control3) == seq![
                    raw0 | CTRL3_SEND_HARD_RESET,
                ],
            ensures
                pre.is_prefix_of(self.log()),
                fifo_writes(new_ops(pre, self.log())) == Seq::<Seq<u8>>::empty(),
                fifo_reads(new_ops(pre, self.log())) == Seq::<Seq<u8>>::empty(),
                reg_reads(new_ops(pre, self.log()), Register::Control3) == seq![raw0],
                reg_writes(new_ops(pre, self.log()), Register::Control3) == seq![
                    raw0 | CTRL3_SEND_HARD_RESET,
                ],
                res is Ok <==> saw_reg_bit(
                    new_ops(pre, self.log()),
                    Register::Interrupta,
                    INTA_HARDSENT,
                ),
                !saw_reg_bit(new_ops(pre, self.log()), Register::Interrupta, INTA_HARDSENT)
                    ==> res == Err::<(), TxError>(TxError::Discarded),
                res is Ok && reg_ops_all_ok(new_ops(pre, self.log()), Register::Interrupta)
                    ==> reg_writes(new_ops(pre, self.log()), Register::Interrupta).len() == 1
                    && spec_bit(
                    reg_writes(new_ops(pre, self.log()), Register::Interrupta)[0],
                    INTA_HARDSENT,
                ),
            decreases HARD_RESET_DEADLINE_MS - waited,
        {
            let iaop = self.ll.interrupta();
            let ghost bl = self.log();
            let read_ia = self.ll.read(iaop);
            proof {
                lemma_track(pre, bl, self.log(), self.log().last());
            }
            let irqa = match read_ia {
                Ok(v) => v,
                Err(_) => {
                    res = Err(TxError::Discarded);
                    break ;
                },
            };
            if irqa.i_hardsent() {
                proof {
                    assert(saw_reg_bit(
                        new_ops(pre, self.log()),
                        Register::Interrupta,
                        INTA_HARDSENT,
                    ));
                }
                // acknowledge the interrupt; a failure of the
                // acknowledgement is deliberately ignored, the reset was
                // sent
                let ghost ba = self.log();
                let ack = self.ll.read(iaop);
                proof {
                    lemma_track(pre, ba, self.log(), self.log().last());
                }
                if let Ok(mut a) = ack {
                    let ghost araw = a.raw();
                    a.set_i_hardsent(true);
                    proof {
                        lemma_or_sets_bit(araw, INTA_HARDSENT);
                    }
                    let ghost bw = self.log();
                    let _ = self.ll.write(iaop, a);
                    proof {
                        lemma_track(pre, bw, self.log(), self.log().last());
                    }
                }
                res = Ok(());
                break ;
            }
            if waited >= HARD_RESET_DEADLINE_MS {
                res = Err(TxError::Discarded);
                break ;
            }
            let ghost bd = self.log();
            self.ll.delay_ms(1);
            proof {
                lemma_track(pre, bd, self.log(), self.log().last());
            }
            waited = waited + 1;
        }
        res
    }
}

} // verus!
