//! The receive path over a simulated bus: interrupt gating, token
//! validation, header decoding, and FIFO accounting.

use fusb302b::driver::Fusb302b;
use fusb302b::error::RxError;
use fusb302b::frame::{num_data_objects, total_message_len};
use fusb302b::sim::SimBus;

const INTERRUPTA: u8 = 62;
const INTERRUPT: u8 = 66;
const CONTROL1: u8 = 7;

fn crc_ok_bus() -> SimBus {
    let mut sim = SimBus::new();
    // the first interrupt poll reports a CRC-checked message waiting
    sim.script_read(INTERRUPT, 0x10);
    sim
}

/// Queues a complete wire message: SOP token, two header bytes declaring
/// `objects` data objects, the payload words, and four CRC bytes.
fn queue_message(sim: &mut SimBus, objects: u8, payload: &[u8]) {
    assert_eq!(payload.len(), objects as usize * 4);
    sim.push_rx_byte(0xE0);
    sim.push_rx_byte(0x61);
    sim.push_rx_byte((objects & 0x07) << 4);
    for b in payload {
        sim.push_rx_byte(*b);
    }
    for b in [0x11, 0x22, 0x33, 0x44] {
        sim.push_rx_byte(b);
    }
}

#[test]
fn receive_reads_exactly_the_declared_bytes() {
    let mut sim = crc_ok_bus();
    let payload = [0xAA, 0xBB, 0xCC, 0xDD, 0x10, 0x20, 0x30, 0x40];
    queue_message(&mut sim, 2, &payload);
    // two guard bytes that must stay in the FIFO queue
    sim.push_rx_byte(0x99);
    sim.push_rx_byte(0x98);
    let mut drv = Fusb302b::new(sim);
    let mut buffer = vec![0u8; 30];
    let got = drv.receive(&mut buffer).unwrap();
    assert_eq!(got, 10);
    assert_eq!(&buffer[0..2], &[0x61, 0x20]);
    assert_eq!(&buffer[2..10], &payload[..]);
    assert!(buffer[10..].iter().all(|b| *b == 0));
    // 1 token + 2 header + 8 payload + 4 CRC bytes were drained
    let bus = drv.ll.interface().bus();
    assert_eq!(bus.rx_remaining(), 2);
}

#[test]
fn receive_of_header_only_message() {
    let mut sim = crc_ok_bus();
    queue_message(&mut sim, 0, &[]);
    sim.push_rx_byte(0x99);
    let mut drv = Fusb302b::new(sim);
    let mut buffer = vec![0u8; 8];
    assert_eq!(drv.receive(&mut buffer), Ok(2));
    assert_eq!(&buffer[0..2], &[0x61, 0x00]);
    // 1 token + 2 header + 4 CRC bytes were drained
    assert_eq!(drv.ll.interface().bus().rx_remaining(), 1);
}

#[test]
fn crc_check_interrupt_is_acknowledged_once() {
    let mut sim = crc_ok_bus();
    queue_message(&mut sim, 0, &[]);
    let mut drv = Fusb302b::new(sim);
    let mut buffer = vec![0u8; 8];
    drv.receive(&mut buffer).unwrap();
    let bus = drv.ll.interface().bus();
    // exactly one write to the interrupt status register, carrying the
    // acknowledged bit
    let acks = bus.writes_to(INTERRUPT);
    assert_eq!(acks.len(), 1);
    assert_eq!(acks[0].len(), 1);
    assert_eq!(acks[0][0] & 0x10, 0x10);
}

#[test]
fn invalid_token_discards_and_flushes_once() {
    let mut sim = crc_ok_bus();
    sim.push_rx_byte(0x12);  // not in the SOP token family
    let mut drv = Fusb302b::new(sim);
    let mut buffer = vec![0u8; 30];
    assert_eq!(drv.receive(&mut buffer), Err(RxError::Discarded));
    assert!(buffer.iter().all(|b| *b == 0));
    let bus = drv.ll.interface().bus();
    let flushes = bus.writes_to(CONTROL1);
    assert_eq!(flushes.len(), 1);
    assert_eq!(flushes[0], vec![0x04]);
}

#[test]
fn oversized_message_discards_and_flushes() {
    let mut sim = crc_ok_bus();
    queue_message(&mut sim, 3, &[0u8; 12]);
    let mut drv = Fusb302b::new(sim);
    // fourteen bytes would be needed, only eight fit
    let mut buffer = vec![0u8; 8];
    assert_eq!(drv.receive(&mut buffer), Err(RxError::Discarded));
    assert!(buffer.iter().all(|b| *b == 0));
    let bus = drv.ll.interface().bus();
    assert_eq!(bus.writes_to(CONTROL1).len(), 1);
}

#[test]
fn hard_reset_has_priority_over_everything() {
    let mut sim = SimBus::new();
    sim.script_read(INTERRUPTA, 0x01);
    sim.script_read(INTERRUPT, 0x10);
    let mut drv = Fusb302b::new(sim);
    let mut buffer = vec![0u8; 30];
    assert_eq!(drv.receive(&mut buffer), Err(RxError::HardReset));
    assert!(buffer.iter().all(|b| *b == 0));
}

#[test]
fn receive_deadline_expiry_returns_discarded_not_a_hang() {
    let mut drv = Fusb302b::new(SimBus::new());
    let mut buffer = vec![0u8; 30];
    assert_eq!(drv.receive(&mut buffer), Err(RxError::Discarded));
    let bus = drv.ll.interface().bus();
    assert_eq!(bus.delay_total(), 20);
}

#[test]
fn message_waiting_on_a_later_poll_is_received() {
    let mut sim = SimBus::new();
    sim.script_read(INTERRUPT, 0x00);
    sim.script_read(INTERRUPT, 0x00);
    sim.script_read(INTERRUPT, 0x10);
    queue_message(&mut sim, 1, &[1, 2, 3, 4]);
    let mut drv = Fusb302b::new(sim);
    let mut buffer = vec![0u8; 16];
    assert_eq!(drv.receive(&mut buffer), Ok(6));
    assert_eq!(&buffer[0..6], &[0x61, 0x10, 1, 2, 3, 4]);
}

#[test]
fn header_decoding_matches_the_wire_format() {
    // bits 12 to 14 of the little-endian header value count the objects
    assert_eq!(num_data_objects(0x61, 0x10), 1);
    assert_eq!(num_data_objects(0x00, 0x70), 7);
    assert_eq!(num_data_objects(0xFF, 0x8F), 0);
    assert_eq!(total_message_len(0x61, 0x10), 6);
    assert_eq!(total_message_len(0x00, 0x70), 30);
    assert_eq!(total_message_len(0x41, 0x00), 2);
}
