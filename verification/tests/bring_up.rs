//! Chip bring-up over a simulated bus: the reset and configuration
//! sequence, the identity check, and CC-pin detection.

use fusb302b::driver::{CcPin, Fusb302b};
use fusb302b::error::FusbError;
use fusb302b::sim::SimBus;

const DEVICE_ID: u8 = 1;
const SWITCHES0: u8 = 2;
const SWITCHES1: u8 = 3;
const CONTROL0: u8 = 6;
const CONTROL1: u8 = 7;
const CONTROL3: u8 = 9;
const MASK: u8 = 10;
const POWER: u8 = 11;
const RESET: u8 = 12;
const MASKA: u8 = 14;
const MASKB: u8 = 15;
const STATUS0: u8 = 64;

#[test]
fn bring_up_writes_the_documented_configuration() {
    let mut sim = SimBus::new();
    sim.set_register(DEVICE_ID, 0x90);  // a revision-B chip
    let mut drv = Fusb302b::new(sim);
    assert_eq!(drv.init(), Ok(()));
    let bus = drv.ll.interface().bus();
    // software reset first, the PD-logic-only reset last
    assert_eq!(bus.writes_to(RESET), vec![vec![0x01], vec![0x02]]);
    // all four power rails on
    assert_eq!(bus.writes_to(POWER), vec![vec![0x0F]]);
    // every interrupt unmasked
    assert_eq!(bus.writes_to(MASK), vec![vec![0x00]]);
    assert_eq!(bus.writes_to(MASKA), vec![vec![0x00]]);
    assert_eq!(bus.writes_to(MASKB), vec![vec![0x00]]);
    assert_eq!(bus.writes_to(CONTROL0), vec![vec![0x00]]);
    // hardware auto-retry with two retries, no automatic resets
    assert_eq!(bus.writes_to(CONTROL3), vec![vec![0x05]]);
    // one receive-FIFO flush
    assert_eq!(bus.writes_to(CONTROL1), vec![vec![0x04]]);
    // ten milliseconds settle after reset and after each probe
    assert_eq!(bus.delay_total(), 30);
}

#[test]
fn unknown_silicon_version_aborts_before_any_configuration() {
    let mut sim = SimBus::new();
    sim.set_register(DEVICE_ID, 0x10);  // version code 1: not a known revision
    let mut drv = Fusb302b::new(sim);
    assert_eq!(drv.init(), Err(FusbError::UnknownDevice));
    let bus = drv.ll.interface().bus();
    // only the software reset was written; nothing follows the identity read
    assert_eq!(bus.write_count(), 1);
    assert_eq!(bus.writes_to(RESET), vec![vec![0x01]]);
    assert_eq!(bus.read_count(), 1);
}

#[test]
fn known_versions_pass_the_identity_check() {
    for id in [0x80u8, 0x90, 0xA4] {
        let mut sim = SimBus::new();
        sim.set_register(DEVICE_ID, id);
        let mut drv = Fusb302b::new(sim);
        assert_eq!(drv.init(), Ok(()));
    }
}

#[test]
fn higher_level_on_cc1_selects_cc1() {
    let mut sim = SimBus::new();
    sim.script_read(STATUS0, 0x02);  // CC1 probe: between 660 mV and 1.23 V
    sim.script_read(STATUS0, 0x01);  // CC2 probe: between 200 mV and 660 mV
    let mut drv = Fusb302b::new(sim);
    assert_eq!(drv.detect_cc_pin(), Ok(CcPin::Cc1));
    let bus = drv.ll.interface().bus();
    // transmit enabled on CC1 with automatic CRC response, not on CC2
    let sw1 = bus.writes_to(SWITCHES1);
    assert_eq!(sw1, vec![vec![0x05]]);
    assert_eq!(sw1[0][0] & 0x01, 0x01);
    assert_eq!(sw1[0][0] & 0x02, 0x00);
    // probe CC1, probe CC2, then measure the winner again
    assert_eq!(bus.writes_to(SWITCHES0), vec![vec![0x07], vec![0x0B], vec![0x07]]);
}

#[test]
fn higher_level_on_cc2_selects_cc2() {
    let mut sim = SimBus::new();
    sim.script_read(STATUS0, 0x00);
    sim.script_read(STATUS0, 0x03);
    let mut drv = Fusb302b::new(sim);
    assert_eq!(drv.detect_cc_pin(), Ok(CcPin::Cc2));
    let bus = drv.ll.interface().bus();
    assert_eq!(bus.writes_to(SWITCHES1), vec![vec![0x06]]);
    assert_eq!(bus.writes_to(SWITCHES0), vec![vec![0x07], vec![0x0B], vec![0x0B]]);
}

#[test]
fn equal_levels_select_the_second_probed_line() {
    // the strict greater-than comparison sends a tie to CC2
    let mut sim = SimBus::new();
    sim.script_read(STATUS0, 0x02);
    sim.script_read(STATUS0, 0x02);
    let mut drv = Fusb302b::new(sim);
    assert_eq!(drv.detect_cc_pin(), Ok(CcPin::Cc2));
}

#[test]
fn bus_failure_during_bring_up_is_forwarded() {
    let mut sim = SimBus::new();
    sim.set_register(DEVICE_ID, 0x90);
    // transactions: 0 reset write, 1 identity read, 2 the power write
    sim.fail_op(2);
    let mut drv = Fusb302b::new(sim);
    assert!(matches!(drv.init(), Err(FusbError::I2c(_))));
}

#[test]
fn device_info_reports_the_identity_register() {
    let mut sim = SimBus::new();
    sim.set_register(DEVICE_ID, 0x91);
    let mut drv = Fusb302b::new(sim);
    let d = drv.get_device_info().unwrap();
    assert_eq!(d.device_id(), 0x91);
}
