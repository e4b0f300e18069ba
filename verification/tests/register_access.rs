//! The register access layer over a simulated bus: round trips, access
//! modes, and staging-capacity limits.

use fusb302b::device::{Device, Register};
use fusb302b::error::FusbError;
use fusb302b::field_sets::{DeviceId, FieldSet, Switches0};
use fusb302b::interface::DeviceInterface;
use fusb302b::sim::SimBus;

fn fresh_device() -> Device<SimBus> {
    Device::new(DeviceInterface::new(SimBus::new()))
}

#[test]
fn write_twice_then_read_returns_last_value() {
    let mut dev = fresh_device();
    let op = dev.switches_0();
    let value = Switches0::from_byte(0x07);
    dev.write(op, value).unwrap();
    dev.write(op, value).unwrap();
    let got = dev.read(op).unwrap();
    assert_eq!(got, value);
    assert_eq!(got.to_byte(), 0x07);
}

#[test]
fn write_read_round_trip_all_read_write_registers() {
    let mut dev = fresh_device();
    let ops = [
        dev.switches_0().reg(),
        dev.switches_1().reg(),
        dev.measure().reg(),
        dev.slice().reg(),
        dev.control_0().reg(),
        dev.control_1().reg(),
        dev.control_2().reg(),
        dev.control_3().reg(),
        dev.mask().reg(),
        dev.power().reg(),
        dev.ocpreg().reg(),
        dev.maska().reg(),
        dev.maskb().reg(),
        dev.control_4().reg(),
        dev.interrupta().reg(),
        dev.interruptb().reg(),
        dev.interrupt().reg(),
    ];
    for reg in ops {
        assert!(reg.readable());
        assert!(reg.writable());
    }
    // a round trip through one representative typed operation
    let op = dev.measure();
    let v = fusb302b::field_sets::Measure::from_byte(0x2A);
    dev.write(op, v).unwrap();
    assert_eq!(dev.read(op).unwrap().to_byte(), 0x2A);
}

#[test]
fn write_to_read_only_register_is_rejected_without_bus_transaction() {
    let mut dev = fresh_device();
    let op = dev.device_id();
    let r = dev.write(op, DeviceId::from_byte(0x55));
    assert_eq!(r, Err(FusbError::NotSupported));
    let bus = dev.interface().bus();
    assert_eq!(bus.write_count(), 0);
    assert_eq!(bus.read_count(), 0);
}

#[test]
fn read_of_write_only_register_is_rejected_without_bus_transaction() {
    let mut dev = fresh_device();
    let op = dev.reset();
    let r = dev.read(op);
    assert_eq!(r, Err(FusbError::NotSupported));
    let bus = dev.interface().bus();
    assert_eq!(bus.write_count(), 0);
    assert_eq!(bus.read_count(), 0);
}

#[test]
fn access_modes_follow_the_register_table() {
    assert!(!Register::DeviceId.writable());
    assert!(!Register::Status0A.writable());
    assert!(!Register::Status1A.writable());
    assert!(!Register::Status0.writable());
    assert!(!Register::Status1.writable());
    assert!(!Register::Reset.readable());
    assert!(Register::Reset.writable());
    assert!(Register::DeviceId.readable());
    assert!(Register::Interrupta.readable());
    assert!(Register::Interrupta.writable());
}

#[test]
fn register_addresses_match_the_data_sheet() {
    assert_eq!(Register::DeviceId.address(), 1);
    assert_eq!(Register::Switches0.address(), 2);
    assert_eq!(Register::Switches1.address(), 3);
    assert_eq!(Register::Control3.address(), 9);
    assert_eq!(Register::Power.address(), 11);
    assert_eq!(Register::Reset.address(), 12);
    assert_eq!(Register::Control4.address(), 16);
    assert_eq!(Register::Status0A.address(), 60);
    assert_eq!(Register::Interrupt.address(), 66);
}

#[test]
fn oversized_register_write_is_rejected_before_the_bus() {
    let mut iface = DeviceInterface::new(SimBus::new());
    let r = iface.write_register(2, &[1, 2, 3, 4, 5]);
    assert_eq!(r, Err(FusbError::LenExceedsBuffer));
    assert_eq!(iface.bus().write_count(), 0);
    // four data bytes still fit together with the address byte
    let r = iface.write_register(2, &[1, 2, 3, 4]);
    assert!(r.is_ok());
    assert_eq!(iface.bus().write_count(), 1);
}

#[test]
fn oversized_buffer_write_is_rejected_before_the_bus() {
    let mut iface = DeviceInterface::new(SimBus::new());
    let big = vec![0u8; 64];
    let r = iface.write_buffer(67, &big);
    assert_eq!(r, Err(FusbError::LenExceedsBuffer));
    assert_eq!(iface.bus().write_count(), 0);
    let fits = vec![0u8; 63];
    assert_eq!(iface.write_buffer(67, &fits), Ok(63));
    assert_eq!(iface.bus().write_count(), 1);
}

#[test]
fn bus_failure_is_forwarded_as_transport_error() {
    let mut sim = SimBus::new();
    sim.fail_op(0);
    let mut dev = Device::new(DeviceInterface::new(sim));
    let op = dev.switches_0();
    let r = dev.write(op, Switches0::from_byte(1));
    assert!(matches!(r, Err(FusbError::I2c(_))));
}

#[test]
fn read_all_registers_reports_every_readable_register() {
    let mut dev = fresh_device();
    let all = dev.read_all_registers().unwrap();
    assert_eq!(all.len(), 22);
    assert_eq!(all[0].0, 1);
    assert_eq!(all[21].0, 66);
    // the write-only reset register is not in the report
    assert!(all.iter().all(|(a, _)| *a != 12));
}
