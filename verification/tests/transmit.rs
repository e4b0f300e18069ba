//! The transmit path over a simulated bus: frame assembly, FIFO delivery,
//! completion polling, and the oscillator discipline.

use fusb302b::driver::Fusb302b;
use fusb302b::error::TxError;
use fusb302b::frame::build_frame;
use fusb302b::sim::SimBus;

const INTERRUPTA: u8 = 62;
const INTERRUPT: u8 = 66;
const POWER: u8 = 11;
const FIFO: u8 = 67;

fn expected_frame(payload: &[u8]) -> Vec<u8> {
    let mut f = vec![0x12, 0x12, 0x12, 0x13, 0x80 | (2 + payload.len() as u8)];
    f.extend_from_slice(payload);
    f.extend_from_slice(&[0xFF, 0x14, 0xFE, 0xA1]);
    f
}

#[test]
fn successful_transmit_streams_one_exact_frame() {
    let mut sim = SimBus::new();
    // the first interrupt-a poll reports the packet as sent
    sim.script_read(INTERRUPTA, 0x04);
    let mut drv = Fusb302b::new(sim);
    let payload = [0x41, 0x00, 0x01, 0x02, 0x03, 0x04];
    assert_eq!(drv.transmit(&payload), Ok(()));
    let bus = drv.ll.interface().bus();
    let frames = bus.writes_to(FIFO);
    assert_eq!(frames.len(), 1);
    assert_eq!(frames[0], expected_frame(&payload));
    assert_eq!(frames[0].len(), payload.len() + 9);
}

#[test]
fn frame_length_is_payload_plus_nine_for_every_length() {
    for len in 0..=31usize {
        let payload = vec![0xA5u8; len];
        let frame = build_frame(&payload).unwrap();
        assert_eq!(frame.len(), len + 9);
        assert_eq!(frame[4], 0x80 | (2 + len as u8));
        assert_eq!(&frame[5..5 + len], &payload[..]);
    }
    assert!(build_frame(&[0u8; 32]).is_none());
}

#[test]
fn oversized_payload_is_discarded_without_touching_the_fifo() {
    let mut drv = Fusb302b::new(SimBus::new());
    let too_big = [0u8; 32];
    assert_eq!(drv.transmit(&too_big), Err(TxError::Discarded));
    let bus = drv.ll.interface().bus();
    assert_eq!(bus.writes_to(FIFO).len(), 0);
    // the oscillator was enabled for the attempt and released again
    let power_writes = bus.writes_to(POWER);
    assert_eq!(power_writes, vec![vec![0x08], vec![0x00]]);
}

#[test]
fn oscillator_is_released_after_success() {
    let mut sim = SimBus::new();
    sim.script_read(INTERRUPTA, 0x04);
    let mut drv = Fusb302b::new(sim);
    drv.transmit(&[1, 2]).unwrap();
    let bus = drv.ll.interface().bus();
    let power_writes = bus.writes_to(POWER);
    assert!(!power_writes.is_empty());
    let last = power_writes.last().unwrap();
    assert_eq!(last.len(), 1);
    assert_eq!(last[0] & 0x08, 0);
}

#[test]
fn oscillator_is_released_after_fifo_failure() {
    let mut sim = SimBus::new();
    // transactions: 0 power read, 1 power write, 2 the FIFO write
    sim.fail_op(2);
    let mut drv = Fusb302b::new(sim);
    assert_eq!(drv.transmit(&[1, 2]), Err(TxError::Discarded));
    let bus = drv.ll.interface().bus();
    let power_writes = bus.writes_to(POWER);
    assert_eq!(power_writes, vec![vec![0x08], vec![0x00]]);
}

#[test]
fn oscillator_is_released_after_timeout() {
    let mut drv = Fusb302b::new(SimBus::new());
    assert_eq!(drv.transmit(&[1, 2]), Err(TxError::Discarded));
    let bus = drv.ll.interface().bus();
    let power_writes = bus.writes_to(POWER);
    assert_eq!(power_writes, vec![vec![0x08], vec![0x00]]);
}

#[test]
fn poll_deadline_expiry_returns_discarded_not_a_hang() {
    // nothing is scripted: every interrupt poll reads all-zero registers
    let mut drv = Fusb302b::new(SimBus::new());
    assert_eq!(drv.transmit(&[9, 9, 9]), Err(TxError::Discarded));
    let bus = drv.ll.interface().bus();
    // one millisecond of suspension per poll iteration up to the deadline
    assert_eq!(bus.delay_total(), 15);
}

#[test]
fn hardware_retry_failure_is_discarded() {
    let mut sim = SimBus::new();
    sim.script_read(INTERRUPTA, 0x10);
    let mut drv = Fusb302b::new(sim);
    assert_eq!(drv.transmit(&[1]), Err(TxError::Discarded));
}

#[test]
fn hard_reset_interrupt_is_reported_distinctly() {
    let mut sim = SimBus::new();
    sim.script_read(INTERRUPTA, 0x01);
    let mut drv = Fusb302b::new(sim);
    assert_eq!(drv.transmit(&[1]), Err(TxError::HardReset));
    // the oscillator is still released
    let bus = drv.ll.interface().bus();
    let power_writes = bus.writes_to(POWER);
    assert_eq!(power_writes.last().unwrap()[0] & 0x08, 0);
}

#[test]
fn collision_interrupt_is_discarded() {
    let mut sim = SimBus::new();
    sim.script_read(INTERRUPT, 0x02);
    let mut drv = Fusb302b::new(sim);
    assert_eq!(drv.transmit(&[1]), Err(TxError::Discarded));
}

#[test]
fn packet_sent_on_a_later_poll_still_succeeds() {
    let mut sim = SimBus::new();
    // the first three interrupt-a polls report nothing
    sim.script_read(INTERRUPTA, 0x00);
    sim.script_read(INTERRUPTA, 0x00);
    sim.script_read(INTERRUPTA, 0x00);
    sim.script_read(INTERRUPTA, 0x04);
    let mut drv = Fusb302b::new(sim);
    assert_eq!(drv.transmit(&[7, 7]), Ok(()));
    let bus = drv.ll.interface().bus();
    assert_eq!(bus.delay_total(), 3);
}

#[test]
fn packet_sent_interrupt_is_acknowledged_once() {
    let mut sim = SimBus::new();
    sim.script_read(INTERRUPTA, 0x04);
    let mut drv = Fusb302b::new(sim);
    drv.transmit(&[1, 2, 3]).unwrap();
    let bus = drv.ll.interface().bus();
    // exactly one write to interrupt-a, carrying the acknowledged bit
    let acks = bus.writes_to(INTERRUPTA);
    assert_eq!(acks.len(), 1);
    assert_eq!(acks[0].len(), 1);
    assert_eq!(acks[0][0] & 0x04, 0x04);
}

#[test]
fn hard_reset_request_is_acknowledged() {
    let mut sim = SimBus::new();
    sim.script_read(INTERRUPTA, 0x08);
    let mut drv = Fusb302b::new(sim);
    assert_eq!(drv.transmit_hard_reset(), Ok(()));
    let bus = drv.ll.interface().bus();
    // one write set the self-clearing send-hard-reset bit
    let c3_writes = bus.writes_to(9);
    assert_eq!(c3_writes.len(), 1);
    assert_eq!(c3_writes[0], vec![0x40]);
}

#[test]
fn hard_reset_request_times_out_to_discarded() {
    let mut drv = Fusb302b::new(SimBus::new());
    assert_eq!(drv.transmit_hard_reset(), Err(TxError::Discarded));
    let bus = drv.ll.interface().bus();
    assert_eq!(bus.delay_total(), 5);
}
