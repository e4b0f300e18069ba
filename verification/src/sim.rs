//! A simulated two-wire bus with a register-file device behind it, for
//! exercising the driver without hardware.
//!
//! [`SimBus`] implements [`I2cBus`]: it keeps a byte of memory per register
//! address, a queue of scripted read responses (so that a status register
//! can report different values on successive polls), a queue of bytes
//! served to FIFO reads, and a list of transaction indices that fail.  It
//! records every transaction so that a test can check exactly what was put
//! on the wire.

use vstd::prelude::*;

use crate::bus::{BusError, BusOp, I2cBus};
use crate::device::FIFO_ADDRESS;

verus! {

/// The payloads among the recorded write transactions whose first data
/// byte is `address`, oldest first, without that leading address byte.
pub open spec fn spec_writes_to(record: Seq<(u8, Seq<u8>)>, address: u8) -> Seq<Seq<u8>>
    decreases record.len(),
{
    if record.len() == 0 {
        Seq::empty()
    } else if record.last().1.len() >= 1 && record.last().1[0] == address {
        spec_writes_to(record.drop_last(), address).push(record.last().1.skip(1))
    } else {
        spec_writes_to(record.drop_last(), address)
    }
}

/// A simulated two-wire bus backed by a register file, scripted read
/// responses, and a receive-FIFO byte queue.
pub struct SimBus {
    mem: Vec<u8>,
    scripted: Vec<(u8, u8)>,
    rx_fifo: Vec<u8>,
    fail_ops: Vec<u64>,
    op_index: u64,
    write_record: Vec<(u8, Vec<u8>)>,
    read_count_record: u64,
    delay_total_record: u64,
    history: Ghost<Seq<BusOp>>,
}

impl SimBus {
    /// A fresh bus: every register byte zero, nothing scripted, an empty
    /// receive FIFO, and no failures.
    pub fn new() -> (r: SimBus)
        ensures
            r.log() == Seq::<BusOp>::empty(),
    {
        SimBus {
            mem: vec![0u8; 256],
            scripted: Vec::new(),
            rx_fifo: Vec::new(),
            fail_ops: Vec::new(),
            op_index: 0,
            write_record: Vec::new(),
            read_count_record: 0,
            delay_total_record: 0,
            history: Ghost(Seq::empty()),
        }
    }

    /// Preloads the device's register `address` with `value`, as if the
    /// chip had set it itself.
    pub fn set_register(&mut self, address: u8, value: u8)
        ensures
            final(self).log() == old(self).log(),
            final(self).scripted_view() == old(self).scripted_view(),
            final(self).rx_view() == old(self).rx_view(),
            final(self).writes_view() == old(self).writes_view(),
            address < old(self).mem_view().len() ==> final(self).mem_view() == old(
                self,
            ).mem_view().update(address as int, value),
            address >= old(self).mem_view().len() ==> final(self).mem_view() == old(
                self,
            ).mem_view(),
    {
        let a = address as usize;
        if a < self.mem.len() {
            self.mem[a] = value;
        }
    }

    /// Queues `value` as the response to the next read of register
    /// `address`, ahead of the register-file content.  Queued responses
    /// for one address are served in the order they were added.
    pub fn script_read(&mut self, address: u8, value: u8)
        ensures
            final(self).log() == old(self).log(),
            final(self).scripted_view() == old(self).scripted_view().push((address, value)),
            final(self).rx_view() == old(self).rx_view(),
            final(self).mem_view() == old(self).mem_view(),
            final(self).writes_view() == old(self).writes_view(),
    {
        self.scripted.push((address, value));
    }

    /// Appends `byte` to the queue served to FIFO reads.
    pub fn push_rx_byte(&mut self, byte: u8)
        ensures
            final(self).log() == old(self).log(),
            final(self).rx_view() == old(self).rx_view().push(byte),
            final(self).scripted_view() == old(self).scripted_view(),
            final(self).mem_view() == old(self).mem_view(),
            final(self).writes_view() == old(self).writes_view(),
    {
        self.rx_fifo.push(byte);
    }

    /// Makes the `index`-th bus transaction (counting writes and
    /// write-reads from zero, not delays) report a failure.
    pub fn fail_op(&mut self, index: u64)
        ensures
            final(self).log() == old(self).log(),
            final(self).mem_view() == old(self).mem_view(),
            final(self).scripted_view() == old(self).scripted_view(),
            final(self).rx_view() == old(self).rx_view(),
            final(self).writes_view() == old(self).writes_view(),
    {
        self.fail_ops.push(index);
    }

    /// How many write transactions were performed.
    pub fn write_count(&self) -> (r: usize)
        ensures
            r == self.writes_view().len(),
    {
        self.write_record.len()
    }

    /// How many write-read transactions were performed.
    pub fn read_count(&self) -> (r: u64)
        ensures
            r == self.read_count_view(),
    {
        self.read_count_record
    }

    /// The total milliseconds of delay requested.
    pub fn delay_total(&self) -> (r: u64)
        ensures
            r == self.delay_total_view(),
    {
        self.delay_total_record
    }

    /// How many bytes are still waiting in the receive-FIFO queue.
    pub fn rx_remaining(&self) -> (r: usize)
        ensures
            r == self.rx_view().len(),
    {
        self.rx_fifo.len()
    }

    /// The payloads of every write transaction whose first byte addressed
    /// `address`, in order, without that leading address byte.
    pub fn writes_to(&self, address: u8) -> (r: Vec<Vec<u8>>)
        ensures
            r@.map_values(|v: Vec<u8>| v@) == spec_writes_to(self.writes_view(), address),
    {
        let mut out: Vec<Vec<u8>> = Vec::new();
        let mut i: usize = 0;
        while i < self.write_record.len()
            invariant
                i <= self.write_record@.len(),
                out@.map_values(|v: Vec<u8>| v@) == spec_writes_to(
                    self.writes_view().take(i as int),
                    address,
                ),
            decreases self.write_record@.len() - i,
        {
            proof {
                assert(self.writes_view().take(i + 1).drop_last() =~= self.writes_view().take(
                    i as int,
                ));
                assert(self.writes_view().take(i + 1).last() == self.writes_view()[i as int]);
            }
            let bytes = &self.write_record[i].1;
            if bytes.len() >= 1 && bytes[0] == address {
                let mut payload: Vec<u8> = Vec::new();
                let mut j: usize = 1;
                while j < bytes.len()
                    invariant
                        1 <= j <= bytes@.len(),
                        payload@ == bytes@.subrange(1, j as int),
                    decreases bytes@.len() - j,
                {
                    let b = bytes[j];
                    payload.push(b);
                    proof {
                        assert(payload@ =~= bytes@.subrange(1, j + 1));
                    }
                    j = j + 1;
                }
                proof {
                    assert(payload@ =~= bytes@.skip(1));
                }
                out.push(payload);
                proof {
                    assert(out@.map_values(|v: Vec<u8>| v@) =~= spec_writes_to(
                        self.writes_view().take(i + 1),
                        address,
                    ));
                }
            } else {
                proof {
                    assert(out@.map_values(|v: Vec<u8>| v@) =~= spec_writes_to(
                        self.writes_view().take(i + 1),
                        address,
                    ));
                }
            }
            i = i + 1;
        }
        proof {
            assert(self.writes_view().take(self.write_record@.len() as int) =~= self.writes_view());
        }
        out
    }

    /// Whether the current transaction index is marked as failing, then
    /// advances the index.
    fn next_op_fails(&mut self) -> (r: bool)
        ensures
            final(self).log() == old(self).log(),
            final(self).mem_view() == old(self).mem_view(),
            final(self).scripted_view() == old(self).scripted_view(),
            final(self).rx_view() == old(self).rx_view(),
    {
        let mut fails = false;
        let mut i: usize = 0;
        while i < self.fail_ops.len()
            invariant
                i <= self.fail_ops@.len(),
            decreases self.fail_ops@.len() - i,
        {
            if self.fail_ops[i] == self.op_index {
                fails = true;
            }
            i = i + 1;
        }
        self.op_index = self.op_index.wrapping_add(1);
        fails
    }

    /// Takes the earliest scripted response for register `address`, if
    /// any.
    fn take_scripted(&mut self, address: u8) -> (r: Option<u8>)
        ensures
            final(self).log() == old(self).log(),
            final(self).mem_view() == old(self).mem_view(),
            final(self).rx_view() == old(self).rx_view(),
    {
        let mut i: usize = 0;
        while i < self.scripted.len()
            invariant
                i <= self.scripted@.len(),
                self.log() == old(self).log(),
                self.mem_view() == old(self).mem_view(),
                self.rx_view() == old(self).rx_view(),
            decreases self.scripted@.len() - i,
        {
            if self.scripted[i].0 == address {
                let v = self.scripted[i].1;
                self.scripted.remove(i);
                return Some(v);
            }
            i = i + 1;
        }
        None
    }

    /// The register-file content.
    pub closed spec fn mem_view(&self) -> Seq<u8> {
        self.mem@
    }

    /// The record of every write transaction performed: the device
    /// address and the raw bytes put on the wire.
    pub closed spec fn writes_view(&self) -> Seq<(u8, Seq<u8>)> {
        self.write_record@.map_values(|p: (u8, Vec<u8>)| (p.0, p.1@))
    }

    /// How many write-read transactions were performed so far.
    pub closed spec fn read_count_view(&self) -> u64 {
        self.read_count_record
    }

    /// The total milliseconds of delay requested so far.
    pub closed spec fn delay_total_view(&self) -> u64 {
        self.delay_total_record
    }

    /// The scripted responses still queued.
    pub closed spec fn scripted_view(&self) -> Seq<(u8, u8)> {
        self.scripted@
    }

    /// The receive-FIFO bytes still queued.
    pub closed spec fn rx_view(&self) -> Seq<u8> {
        self.rx_fifo@
    }
}

impl I2cBus for SimBus {
    closed spec fn log(&self) -> Seq<BusOp> {
        self.history@
    }

    fn write(&mut self, dev: u8, data: &[u8]) -> (r: Result<(), BusError>) {
        let fails = self.next_op_fails();
        let mut copy: Vec<u8> = Vec::new();
        copy.extend_from_slice(data);
        self.write_record.push((dev, copy));
        if !fails && data.len() == 2 && data[0] != FIFO_ADDRESS {
            let a = data[0] as usize;
            if a < self.mem.len() {
                let v = data[1];
                self.mem[a] = v;
            }
        }
        let r = if fails {
            Err(BusError { code: 1 })
        } else {
            Ok(())
        };
        self.history = Ghost(
            self.history@.push(BusOp::Write { dev, data: data@, ok: r is Ok }),
        );
        r
    }

    fn write_then_read(&mut self, dev: u8, data: &[u8], read_len: usize) -> (r: Result<
        Vec<u8>,
        BusError,
    >) {
        let fails = self.next_op_fails();
        self.read_count_record = self.read_count_record.wrapping_add(1);
        if fails {
            self.history = Ghost(
                self.history@.push(
                    BusOp::WriteRead { dev, data: data@, resp: Seq::empty(), ok: false },
                ),
            );
            return Err(BusError { code: 2 });
        }
        let mut resp: Vec<u8> = Vec::new();
        let mut from_fifo = false;
        if data.len() == 1 && data[0] == FIFO_ADDRESS {
            from_fifo = true;
        }
        if !from_fifo && read_len > 0 && data.len() == 1 {
            let a = data[0];
            let first = match self.take_scripted(a) {
                Some(v) => v,
                None => {
                    let ai = a as usize;
                    if ai < self.mem.len() {
                        self.mem[ai]
                    } else {
                        0
                    }
                },
            };
            resp.push(first);
        }
        while resp.len() < read_len
            invariant
                resp@.len() <= read_len,
                self.log() == old(self).log(),
            decreases read_len - resp@.len(),
        {
            if from_fifo && self.rx_fifo.len() > 0 {
                let b = self.rx_fifo.remove(0);
                resp.push(b);
            } else {
                resp.push(0);
            }
        }
        self.history = Ghost(
            self.history@.push(BusOp::WriteRead { dev, data: data@, resp: resp@, ok: true }),
        );
        Ok(resp)
    }

    fn delay_ms(&mut self, ms: u64) {
        self.delay_total_record = self.delay_total_record.wrapping_add(ms);
        self.history = Ghost(self.history@.push(BusOp::Delay { ms }));
    }
}

} // verus!
