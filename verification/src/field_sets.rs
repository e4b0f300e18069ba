//! Typed, bit-field-accurate snapshots of the chip's registers.
//!
//! Each register is one byte wide; a field-set value is an in-memory copy of
//! that byte, readable and writable field by field.  A field set round-trips
//! losslessly through its raw byte representation: `from_byte` and `to_byte`
//! are exact inverses, and every getter and setter is specified against the
//! bit-level helpers of [`crate::fields`].

use vstd::prelude::*;

use crate::fields::{spec_bit, spec_with_bit, spec_field, spec_with_field, ConversionError};
use crate::device::Register;
use crate::enums::{SpecRev, SdacHys, HostCurrent, TogSavePwr, ToggleMode, RetryCount, ToggleState, BcLvl, Fusb302Version};

verus! {

/// A one-byte register snapshot that can be encoded to and decoded from its
/// raw byte content.
pub trait FieldSet: Sized {
    /// The raw byte content of the snapshot.
    spec fn raw(&self) -> u8;

    /// Decodes a snapshot from the raw byte read over the bus.
    fn from_byte(byte: u8) -> (r: Self)
        ensures
            r.raw() == byte,
    ;

    /// Encodes the snapshot into the raw byte to put on the bus.
    fn to_byte(&self) -> (b: u8)
        ensures
            b == self.raw(),
    ;
}


/// Device Identification Register.
#[derive(Clone, Copy, Debug, PartialEq, Eq, Structural)]
pub struct DeviceId {
    bits: u8,
}

impl FieldSet for DeviceId {
    closed spec fn raw(&self) -> u8 {
        self.bits
    }

    fn from_byte(byte: u8) -> (r: Self) {
        DeviceId { bits: byte }
    }

    fn to_byte(&self) -> (b: u8) {
        self.bits
    }
}

impl DeviceId {

    /// Device ID value (e.g., 0x9x for FUSB302B variants).
    pub open spec fn spec_device_id(&self) -> u8 {
        spec_field(self.raw(), 0, 0xFF)
    }

    /// Silicon version of the chip.
    pub open spec fn spec_version_id(&self) -> Result<Fusb302Version, ConversionError> {
        Fusb302Version::spec_try_from_raw(spec_field(self.raw(), 4, 0x0F))
    }

    /// Creates a new snapshot, loaded with the register's reset value.
    pub fn new() -> (r: Self)
        ensures
            r.raw() == 0,
    {
        DeviceId { bits: 0 }
    }

    /// Creates a new snapshot, loaded with all zeroes.
    pub fn new_zero() -> (r: Self)
        ensures
            r.raw() == 0,
    {
        DeviceId { bits: 0 }
    }

    /// Reads the `device_id` field: Device ID value (e.g., 0x9x for FUSB302B variants).
    #[verifier::when_used_as_spec(spec_device_id)]
    pub fn device_id(&self) -> (r: u8)
        ensures
            r == self.spec_device_id(),
    {
        (self.bits >> 0u8) & 0xFF
    }

    /// Writes the `device_id` field.
    pub fn set_device_id(&mut self, value: u8)
        ensures
            final(self).raw() == spec_with_field(old(self).raw(), 0, 0xFF, value),
    {
        self.bits = (self.bits & !(0xFFu8 << 0u8)) | ((value & 0xFF) << 0u8);
    }

    /// Reads the `version_id` field: Silicon version of the chip.  A raw code outside the
    /// defined set of `Fusb302Version` is reported as an error, never as a
    /// default value.
    #[verifier::when_used_as_spec(spec_version_id)]
    pub fn version_id(&self) -> (r: Result<Fusb302Version, ConversionError>)
        ensures
            r == self.spec_version_id(),
    {
        Fusb302Version::try_from_raw((self.bits >> 4u8) & 0x0F)
    }

    /// Writes the `version_id` field.
    pub fn set_version_id(&mut self, value: Fusb302Version)
        ensures
            final(self).raw() == spec_with_field(old(self).raw(), 4, 0x0F, value.spec_to_raw()),
    {
        self.bits = (self.bits & !(0x0Fu8 << 4u8)) | ((value.to_raw() & 0x0F) << 4u8);
    }
}


/// Switch Control Register 0.
#[derive(Clone, Copy, Debug, PartialEq, Eq, Structural)]
pub struct Switches0 {
    bits: u8,
}

impl FieldSet for Switches0 {
    closed spec fn raw(&self) -> u8 {
        self.bits
    }

    fn from_byte(byte: u8) -> (r: Self) {
        Switches0 { bits: byte }
    }

    fn to_byte(&self) -> (b: u8) {
        self.bits
    }
}

impl Switches0 {

    /// Pull-up enable for CC2 (true: apply host pull-up current).
    pub open spec fn spec_pu_en_2(&self) -> bool {
        spec_bit(self.raw(), 0x80)
    }

    /// Pull-up enable for CC1 (true: apply host pull-up current).
    pub open spec fn spec_pu_en_1(&self) -> bool {
        spec_bit(self.raw(), 0x40)
    }

    /// VCONN enable for CC2 (true: turn on VCONN current).
    pub open spec fn spec_vconn_cc_2(&self) -> bool {
        spec_bit(self.raw(), 0x20)
    }

    /// VCONN enable for CC1 (true: turn on VCONN current).
    pub open spec fn spec_vconn_cc_1(&self) -> bool {
        spec_bit(self.raw(), 0x10)
    }

    /// Measure CC2 (true: monitor/measure voltage on CC2).
    pub open spec fn spec_meas_cc_2(&self) -> bool {
        spec_bit(self.raw(), 0x08)
    }

    /// Measure CC1 (true: monitor/measure voltage on CC1).
    pub open spec fn spec_meas_cc_1(&self) -> bool {
        spec_bit(self.raw(), 0x04)
    }

    /// Pull-down for CC2 (true: device pull-down on).
    pub open spec fn spec_pdwn_2(&self) -> bool {
        spec_bit(self.raw(), 0x02)
    }

    /// Pull-down for CC1 (true: device pull-down on).
    pub open spec fn spec_pdwn_1(&self) -> bool {
        spec_bit(self.raw(), 0x01)
    }

    /// Creates a new snapshot, loaded with the register's reset value.
    pub fn new() -> (r: Self)
        ensures
            r.raw() == 0,
    {
        Switches0 { bits: 0 }
    }

    /// Creates a new snapshot, loaded with all zeroes.
    pub fn new_zero() -> (r: Self)
        ensures
            r.raw() == 0,
    {
        Switches0 { bits: 0 }
    }

    /// Reads the `pu_en_2` field: Pull-up enable for CC2 (true: apply host pull-up current).
    #[verifier::when_used_as_spec(spec_pu_en_2)]
    pub fn pu_en_2(&self) -> (r: bool)
        ensures
            r == self.spec_pu_en_2(),
    {
        self.bits & 0x80 != 0
    }

    /// Writes the `pu_en_2` field.
    pub fn set_pu_en_2(&mut self, value: bool)
        ensures
            final(self).raw() == spec_with_bit(old(self).raw(), 0x80, value),
    {
        self.bits = if value {
            self.bits | 0x80
        } else {
            self.bits & !0x80
        };
    }

    /// Reads the `pu_en_1` field: Pull-up enable for CC1 (true: apply host pull-up current).
    #[verifier::when_used_as_spec(spec_pu_en_1)]
    pub fn pu_en_1(&self) -> (r: bool)
        ensures
            r == self.spec_pu_en_1(),
    {
        self.bits & 0x40 != 0
    }

    /// Writes the `pu_en_1` field.
    pub fn set_pu_en_1(&mut self, value: bool)
        ensures
            final(self).raw() == spec_with_bit(old(self).raw(), 0x40, value),
    {
        self.bits = if value {
            self.bits | 0x40
        } else {
            self.bits & !0x40
        };
    }

    /// Reads the `vconn_cc_2` field: VCONN enable for CC2 (true: turn on VCONN current).
    #[verifier::when_used_as_spec(spec_vconn_cc_2)]
    pub fn vconn_cc_2(&self) -> (r: bool)
        ensures
            r == self.spec_vconn_cc_2(),
    {
        self.bits & 0x20 != 0
    }

    /// Writes the `vconn_cc_2` field.
    pub fn set_vconn_cc_2(&mut self, value: bool)
        ensures
            final(self).raw() == spec_with_bit(old(self).raw(), 0x20, value),
    {
        self.bits = if value {
            self.bits | 0x20
        } else {
            self.bits & !0x20
        };
    }

    /// Reads the `vconn_cc_1` field: VCONN enable for CC1 (true: turn on VCONN current).
    #[verifier::when_used_as_spec(spec_vconn_cc_1)]
    pub fn vconn_cc_1(&self) -> (r: bool)
        ensures
            r == self.spec_vconn_cc_1(),
    {
        self.bits & 0x10 != 0
    }

    /// Writes the `vconn_cc_1` field.
    pub fn set_vconn_cc_1(&mut self, value: bool)
        ensures
            final(self).raw() == spec_with_bit(old(self).raw(), 0x10, value),
    {
        self.bits = if value {
            self.bits | 0x10
        } else {
            self.bits & !0x10
        };
    }

    /// Reads the `meas_cc_2` field: Measure CC2 (true: monitor/measure voltage on CC2).
    #[verifier::when_used_as_spec(spec_meas_cc_2)]
    pub fn meas_cc_2(&self) -> (r: bool)
        ensures
            r == self.spec_meas_cc_2(),
    {
        self.bits & 0x08 != 0
    }

    /// Writes the `meas_cc_2` field.
    pub fn set_meas_cc_2(&mut self, value: bool)
        ensures
            final(self).raw() == spec_with_bit(old(self).raw(), 0x08, value),
    {
        self.bits = if value {
            self.bits | 0x08
        } else {
            self.bits & !0x08
        };
    }

    /// Reads the `meas_cc_1` field: Measure CC1 (true: monitor/measure voltage on CC1).
    #[verifier::when_used_as_spec(spec_meas_cc_1)]
    pub fn meas_cc_1(&self) -> (r: bool)
        ensures
            r == self.spec_meas_cc_1(),
    {
        self.bits & 0x04 != 0
    }

    /// Writes the `meas_cc_1` field.
    pub fn set_meas_cc_1(&mut self, value: bool)
        ensures
            final(self).raw() == spec_with_bit(old(self).raw(), 0x04, value),
    {
        self.bits = if value {
            self.bits | 0x04
        } else {
            self.bits & !0x04
        };
    }

    /// Reads the `pdwn_2` field: Pull-down for CC2 (true: device pull-down on).
    #[verifier::when_used_as_spec(spec_pdwn_2)]
    pub fn pdwn_2(&self) -> (r: bool)
        ensures
            r == self.spec_pdwn_2(),
    {
        self.bits & 0x02 != 0
    }

    /// Writes the `pdwn_2` field.
    pub fn set_pdwn_2(&mut self, value: bool)
        ensures
            final(self).raw() == spec_with_bit(old(self).raw(), 0x02, value),
    {
        self.bits = if value {
            self.bits | 0x02
        } else {
            self.bits & !0x02
        };
    }

    /// Reads the `pdwn_1` field: Pull-down for CC1 (true: device pull-down on).
    #[verifier::when_used_as_spec(spec_pdwn_1)]
    pub fn pdwn_1(&self) -> (r: bool)
        ensures
            r == self.spec_pdwn_1(),
    {
        self.bits & 0x01 != 0
    }

    /// Writes the `pdwn_1` field.
    pub fn set_pdwn_1(&mut self, value: bool)
        ensures
            final(self).raw() == spec_with_bit(old(self).raw(), 0x01, value),
    {
        self.bits = if value {
            self.bits | 0x01
        } else {
            self.bits & !0x01
        };
    }
}


/// Switch Control Register 1.
#[derive(Clone, Copy, Debug, PartialEq, Eq, Structural)]
pub struct Switches1 {
    bits: u8,
}

impl FieldSet for Switches1 {
    closed spec fn raw(&self) -> u8 {
        self.bits
    }

    fn from_byte(byte: u8) -> (r: Self) {
        Switches1 { bits: byte }
    }

    fn to_byte(&self) -> (b: u8) {
        self.bits
    }
}

impl Switches1 {

    /// Power role for GoodCRC packet (true: Source, false: Sink for SOP).
    pub open spec fn spec_powerrole(&self) -> bool {
        spec_bit(self.raw(), 0x80)
    }

    /// Specification revision for GoodCRC packet.
    pub open spec fn spec_specrev(&self) -> Result<SpecRev, ConversionError> {
        SpecRev::spec_try_from_raw(spec_field(self.raw(), 5, 0x03))
    }

    /// Data role for GoodCRC packet (true: SRC, false: SNK for SOP).
    pub open spec fn spec_datarole(&self) -> bool {
        spec_bit(self.raw(), 0x10)
    }

    /// Automatic CRC handling (true: auto-send GoodCRC on valid packet).
    pub open spec fn spec_auto_crc(&self) -> bool {
        spec_bit(self.raw(), 0x04)
    }

    /// Transmit on CC2 (true: enable BMC transmit driver).
    pub open spec fn spec_txcc_2(&self) -> bool {
        spec_bit(self.raw(), 0x02)
    }

    /// Transmit on CC1 (true: enable BMC transmit driver).
    pub open spec fn spec_txcc_1(&self) -> bool {
        spec_bit(self.raw(), 0x01)
    }

    /// Creates a new snapshot, loaded with the register's reset value.
    pub fn new() -> (r: Self)
        ensures
            r.raw() == 0,
    {
        Switches1 { bits: 0 }
    }

    /// Creates a new snapshot, loaded with all zeroes.
    pub fn new_zero() -> (r: Self)
        ensures
            r.raw() == 0,
    {
        Switches1 { bits: 0 }
    }

    /// Reads the `powerrole` field: Power role for GoodCRC packet (true: Source, false: Sink for SOP).
    #[verifier::when_used_as_spec(spec_powerrole)]
    pub fn powerrole(&self) -> (r: bool)
        ensures
            r == self.spec_powerrole(),
    {
        self.bits & 0x80 != 0
    }

    /// Writes the `powerrole` field.
    pub fn set_powerrole(&mut self, value: bool)
        ensures
            final(self).raw() == spec_with_bit(old(self).raw(), 0x80, value),
    {
        self.bits = if value {
            self.bits | 0x80
        } else {
            self.bits & !0x80
        };
    }

    /// Reads the `specrev` field: Specification revision for GoodCRC packet.  A raw code outside the
    /// defined set of `SpecRev` is reported as an error, never as a
    /// default value.
    #[verifier::when_used_as_spec(spec_specrev)]
    pub fn specrev(&self) -> (r: Result<SpecRev, ConversionError>)
        ensures
            r == self.spec_specrev(),
    {
        SpecRev::try_from_raw((self.bits >> 5u8) & 0x03)
    }

    /// Writes the `specrev` field.
    pub fn set_specrev(&mut self, value: SpecRev)
        ensures
            final(self).raw() == spec_with_field(old(self).raw(), 5, 0x03, value.spec_to_raw()),
    {
        self.bits = (self.bits & !(0x03u8 << 5u8)) | ((value.to_raw() & 0x03) << 5u8);
    }

    /// Reads the `datarole` field: Data role for GoodCRC packet (true: SRC, false: SNK for SOP).
    #[verifier::when_used_as_spec(spec_datarole)]
    pub fn datarole(&self) -> (r: bool)
        ensures
            r == self.spec_datarole(),
    {
        self.bits & 0x10 != 0
    }

    /// Writes the `datarole` field.
    pub fn set_datarole(&mut self, value: bool)
        ensures
            final(self).raw() == spec_with_bit(old(self).raw(), 0x10, value),
    {
        self.bits = if value {
            self.bits | 0x10
        } else {
            self.bits & !0x10
        };
    }

    /// Reads the `auto_crc` field: Automatic CRC handling (true: auto-send GoodCRC on valid packet).
    #[verifier::when_used_as_spec(spec_auto_crc)]
    pub fn auto_crc(&self) -> (r: bool)
        ensures
            r == self.spec_auto_crc(),
    {
        self.bits & 0x04 != 0
    }

    /// Writes the `auto_crc` field.
    pub fn set_auto_crc(&mut self, value: bool)
        ensures
            final(self).raw() == spec_with_bit(old(self).raw(), 0x04, value),
    {
        self.bits = if value {
            self.bits | 0x04
        } else {
            self.bits & !0x04
        };
    }

    /// Reads the `txcc_2` field: Transmit on CC2 (true: enable BMC transmit driver).
    #[verifier::when_used_as_spec(spec_txcc_2)]
    pub fn txcc_2(&self) -> (r: bool)
        ensures
            r == self.spec_txcc_2(),
    {
        self.bits & 0x02 != 0
    }

    /// Writes the `txcc_2` field.
    pub fn set_txcc_2(&mut self, value: bool)
        ensures
            final(self).raw() == spec_with_bit(old(self).raw(), 0x02, value),
    {
        self.bits = if value {
            self.bits | 0x02
        } else {
            self.bits & !0x02
        };
    }

    /// Reads the `txcc_1` field: Transmit on CC1 (true: enable BMC transmit driver).
    #[verifier::when_used_as_spec(spec_txcc_1)]
    pub fn txcc_1(&self) -> (r: bool)
        ensures
            r == self.spec_txcc_1(),
    {
        self.bits & 0x01 != 0
    }

    /// Writes the `txcc_1` field.
    pub fn set_txcc_1(&mut self, value: bool)
        ensures
            final(self).raw() == spec_with_bit(old(self).raw(), 0x01, value),
    {
        self.bits = if value {
            self.bits | 0x01
        } else {
            self.bits & !0x01
        };
    }
}


/// Measure Control Register.
#[derive(Clone, Copy, Debug, PartialEq, Eq, Structural)]
pub struct Measure {
    bits: u8,
}

impl FieldSet for Measure {
    closed spec fn raw(&self) -> u8 {
        self.bits
    }

    fn from_byte(byte: u8) -> (r: Self) {
        Measure { bits: byte }
    }

    fn to_byte(&self) -> (b: u8) {
        self.bits
    }
}

impl Measure {

    /// Measure VBUS (true: measure VBUS voltage).
    pub open spec fn spec_meas_vbus(&self) -> bool {
        spec_bit(self.raw(), 0x40)
    }

    /// MDAC setting for voltage measurement threshold.
    pub open spec fn spec_mdac(&self) -> u8 {
        spec_field(self.raw(), 0, 0x3F)
    }

    /// Creates a new snapshot, loaded with the register's reset value.
    pub fn new() -> (r: Self)
        ensures
            r.raw() == 0,
    {
        Measure { bits: 0 }
    }

    /// Creates a new snapshot, loaded with all zeroes.
    pub fn new_zero() -> (r: Self)
        ensures
            r.raw() == 0,
    {
        Measure { bits: 0 }
    }

    /// Reads the `meas_vbus` field: Measure VBUS (true: measure VBUS voltage).
    #[verifier::when_used_as_spec(spec_meas_vbus)]
    pub fn meas_vbus(&self) -> (r: bool)
        ensures
            r == self.spec_meas_vbus(),
    {
        self.bits & 0x40 != 0
    }

    /// Writes the `meas_vbus` field.
    pub fn set_meas_vbus(&mut self, value: bool)
        ensures
            final(self).raw() == spec_with_bit(old(self).raw(), 0x40, value),
    {
        self.bits = if value {
            self.bits | 0x40
        } else {
            self.bits & !0x40
        };
    }

    /// Reads the `mdac` field: MDAC setting for voltage measurement threshold.
    #[verifier::when_used_as_spec(spec_mdac)]
    pub fn mdac(&self) -> (r: u8)
        ensures
            r == self.spec_mdac(),
    {
        (self.bits >> 0u8) & 0x3F
    }

    /// Writes the `mdac` field.
    pub fn set_mdac(&mut self, value: u8)
        ensures
            final(self).raw() == spec_with_field(old(self).raw(), 0, 0x3F, value),
    {
        self.bits = (self.bits & !(0x3Fu8 << 0u8)) | ((value & 0x3F) << 0u8);
    }
}


/// Slice Control Register.
#[derive(Clone, Copy, Debug, PartialEq, Eq, Structural)]
pub struct Slice {
    bits: u8,
}

impl FieldSet for Slice {
    closed spec fn raw(&self) -> u8 {
        self.bits
    }

    fn from_byte(byte: u8) -> (r: Self) {
        Slice { bits: byte }
    }

    fn to_byte(&self) -> (b: u8) {
        self.bits
    }
}

impl Slice {

    /// SDAC hysteresis setting.
    pub open spec fn spec_sdac_hys(&self) -> SdacHys {
        SdacHys::spec_from_field(spec_field(self.raw(), 6, 0x03))
    }

    /// SDAC setting for BMC slicer DAC threshold.
    pub open spec fn spec_sdac(&self) -> u8 {
        spec_field(self.raw(), 0, 0x3F)
    }

    /// Creates a new snapshot, loaded with the register's reset value.
    pub fn new() -> (r: Self)
        ensures
            r.raw() == 0,
    {
        Slice { bits: 0 }
    }

    /// Creates a new snapshot, loaded with all zeroes.
    pub fn new_zero() -> (r: Self)
        ensures
            r.raw() == 0,
    {
        Slice { bits: 0 }
    }

    /// Reads the `sdac_hys` field: SDAC hysteresis setting.
    #[verifier::when_used_as_spec(spec_sdac_hys)]
    pub fn sdac_hys(&self) -> (r: SdacHys)
        ensures
            r == self.spec_sdac_hys(),
    {
        SdacHys::from_field((self.bits >> 6u8) & 0x03)
    }

    /// Writes the `sdac_hys` field.
    pub fn set_sdac_hys(&mut self, value: SdacHys)
        ensures
            final(self).raw() == spec_with_field(old(self).raw(), 6, 0x03, value.spec_to_raw()),
    {
        self.bits = (self.bits & !(0x03u8 << 6u8)) | ((value.to_raw() & 0x03) << 6u8);
    }

    /// Reads the `sdac` field: SDAC setting for BMC slicer DAC threshold.
    #[verifier::when_used_as_spec(spec_sdac)]
    pub fn sdac(&self) -> (r: u8)
        ensures
            r == self.spec_sdac(),
    {
        (self.bits >> 0u8) & 0x3F
    }

    /// Writes the `sdac` field.
    pub fn set_sdac(&mut self, value: u8)
        ensures
            final(self).raw() == spec_with_field(old(self).raw(), 0, 0x3F, value),
    {
        self.bits = (self.bits & !(0x3Fu8 << 0u8)) | ((value & 0x3F) << 0u8);
    }
}


/// Control Register 0.
#[derive(Clone, Copy, Debug, PartialEq, Eq, Structural)]
pub struct Control0 {
    bits: u8,
}

impl FieldSet for Control0 {
    closed spec fn raw(&self) -> u8 {
        self.bits
    }

    fn from_byte(byte: u8) -> (r: Self) {
        Control0 { bits: byte }
    }

    fn to_byte(&self) -> (b: u8) {
        self.bits
    }
}

impl Control0 {

    /// Flush transmit FIFO (true: self-clearing flush).
    pub open spec fn spec_tx_flush(&self) -> bool {
        spec_bit(self.raw(), 0x40)
    }

    /// Interrupt mask (true: mask all interrupts).
    pub open spec fn spec_int_mask(&self) -> bool {
        spec_bit(self.raw(), 0x20)
    }

    /// Host current setting for pull-ups.
    pub open spec fn spec_host_cur(&self) -> HostCurrent {
        HostCurrent::spec_from_field(spec_field(self.raw(), 2, 0x03))
    }

    /// Auto preamble (true: auto-start transmitter on good CRC).
    pub open spec fn spec_auto_pre(&self) -> bool {
        spec_bit(self.raw(), 0x02)
    }

    /// Start transmission (true: initiate packet transmission).
    pub open spec fn spec_tx_start(&self) -> bool {
        spec_bit(self.raw(), 0x01)
    }

    /// Creates a new snapshot, loaded with the register's reset value.
    pub fn new() -> (r: Self)
        ensures
            r.raw() == 0,
    {
        Control0 { bits: 0 }
    }

    /// Creates a new snapshot, loaded with all zeroes.
    pub fn new_zero() -> (r: Self)
        ensures
            r.raw() == 0,
    {
        Control0 { bits: 0 }
    }

    /// Reads the `tx_flush` field: Flush transmit FIFO (true: self-clearing flush).
    #[verifier::when_used_as_spec(spec_tx_flush)]
    pub fn tx_flush(&self) -> (r: bool)
        ensures
            r == self.spec_tx_flush(),
    {
        self.bits & 0x40 != 0
    }

    /// Writes the `tx_flush` field.
    pub fn set_tx_flush(&mut self, value: bool)
        ensures
            final(self).raw() == spec_with_bit(old(self).raw(), 0x40, value),
    {
        self.bits = if value {
            self.bits | 0x40
        } else {
            self.bits & !0x40
        };
    }

    /// Reads the `int_mask` field: Interrupt mask (true: mask all interrupts).
    #[verifier::when_used_as_spec(spec_int_mask)]
    pub fn int_mask(&self) -> (r: bool)
        ensures
            r == self.spec_int_mask(),
    {
        self.bits & 0x20 != 0
    }

    /// Writes the `int_mask` field.
    pub fn set_int_mask(&mut self, value: bool)
        ensures
            final(self).raw() == spec_with_bit(old(self).raw(), 0x20, value),
    {
        self.bits = if value {
            self.bits | 0x20
        } else {
            self.bits & !0x20
        };
    }

    /// Reads the `host_cur` field: Host current setting for pull-ups.
    #[verifier::when_used_as_spec(spec_host_cur)]
    pub fn host_cur(&self) -> (r: HostCurrent)
        ensures
            r == self.spec_host_cur(),
    {
        HostCurrent::from_field((self.bits >> 2u8) & 0x03)
    }

    /// Writes the `host_cur` field.
    pub fn set_host_cur(&mut self, value: HostCurrent)
        ensures
            final(self).raw() == spec_with_field(old(self).raw(), 2, 0x03, value.spec_to_raw()),
    {
        self.bits = (self.bits & !(0x03u8 << 2u8)) | ((value.to_raw() & 0x03) << 2u8);
    }

    /// Reads the `auto_pre` field: Auto preamble (true: auto-start transmitter on good CRC).
    #[verifier::when_used_as_spec(spec_auto_pre)]
    pub fn auto_pre(&self) -> (r: bool)
        ensures
            r == self.spec_auto_pre(),
    {
        self.bits & 0x02 != 0
    }

    /// Writes the `auto_pre` field.
    pub fn set_auto_pre(&mut self, value: bool)
        ensures
            final(self).raw() == spec_with_bit(old(self).raw(), 0x02, value),
    {
        self.bits = if value {
            self.bits | 0x02
        } else {
            self.bits & !0x02
        };
    }

    /// Reads the `tx_start` field: Start transmission (true: initiate packet transmission).
    #[verifier::when_used_as_spec(spec_tx_start)]
    pub fn tx_start(&self) -> (r: bool)
        ensures
            r == self.spec_tx_start(),
    {
        self.bits & 0x01 != 0
    }

    /// Writes the `tx_start` field.
    pub fn set_tx_start(&mut self, value: bool)
        ensures
            final(self).raw() == spec_with_bit(old(self).raw(), 0x01, value),
    {
        self.bits = if value {
            self.bits | 0x01
        } else {
            self.bits & !0x01
        };
    }
}


/// Control Register 1.
#[derive(Clone, Copy, Debug, PartialEq, Eq, Structural)]
pub struct Control1 {
    bits: u8,
}

impl FieldSet for Control1 {
    closed spec fn raw(&self) -> u8 {
        self.bits
    }

    fn from_byte(byte: u8) -> (r: Self) {
        Control1 { bits: byte }
    }

    fn to_byte(&self) -> (b: u8) {
        self.bits
    }
}

impl Control1 {

    /// Enable SOP'' Debug packets (true: enabled).
    pub open spec fn spec_ensop_2_db(&self) -> bool {
        spec_bit(self.raw(), 0x40)
    }

    /// Enable SOP' Debug packets (true: enabled).
    pub open spec fn spec_ensop_1_db(&self) -> bool {
        spec_bit(self.raw(), 0x20)
    }

    /// BIST Mode 01s pattern (true: enabled for testing).
    pub open spec fn spec_bist_mode_2(&self) -> bool {
        spec_bit(self.raw(), 0x10)
    }

    /// Flush receive FIFO (true: self-clearing flush).
    pub open spec fn spec_rx_flush(&self) -> bool {
        spec_bit(self.raw(), 0x04)
    }

    /// Enable SOP'' packets (true: enabled).
    pub open spec fn spec_ensop_2(&self) -> bool {
        spec_bit(self.raw(), 0x02)
    }

    /// Enable SOP' packets (true: enabled).
    pub open spec fn spec_ensop_1(&self) -> bool {
        spec_bit(self.raw(), 0x01)
    }

    /// Creates a new snapshot, loaded with the register's reset value.
    pub fn new() -> (r: Self)
        ensures
            r.raw() == 0,
    {
        Control1 { bits: 0 }
    }

    /// Creates a new snapshot, loaded with all zeroes.
    pub fn new_zero() -> (r: Self)
        ensures
            r.raw() == 0,
    {
        Control1 { bits: 0 }
    }

    /// Reads the `ensop_2_db` field: Enable SOP'' Debug packets (true: enabled).
    #[verifier::when_used_as_spec(spec_ensop_2_db)]
    pub fn ensop_2_db(&self) -> (r: bool)
        ensures
            r == self.spec_ensop_2_db(),
    {
        self.bits & 0x40 != 0
    }

    /// Writes the `ensop_2_db` field.
    pub fn set_ensop_2_db(&mut self, value: bool)
        ensures
            final(self).raw() == spec_with_bit(old(self).raw(), 0x40, value),
    {
        self.bits = if value {
            self.bits | 0x40
        } else {
            self.bits & !0x40
        };
    }

    /// Reads the `ensop_1_db` field: Enable SOP' Debug packets (true: enabled).
    #[verifier::when_used_as_spec(spec_ensop_1_db)]
    pub fn ensop_1_db(&self) -> (r: bool)
        ensures
            r == self.spec_ensop_1_db(),
    {
        self.bits & 0x20 != 0
    }

    /// Writes the `ensop_1_db` field.
    pub fn set_ensop_1_db(&mut self, value: bool)
        ensures
            final(self).raw() == spec_with_bit(old(self).raw(), 0x20, value),
    {
        self.bits = if value {
            self.bits | 0x20
        } else {
            self.bits & !0x20
        };
    }

    /// Reads the `bist_mode_2` field: BIST Mode 01s pattern (true: enabled for testing).
    #[verifier::when_used_as_spec(spec_bist_mode_2)]
    pub fn bist_mode_2(&self) -> (r: bool)
        ensures
            r == self.spec_bist_mode_2(),
    {
        self.bits & 0x10 != 0
    }

    /// Writes the `bist_mode_2` field.
    pub fn set_bist_mode_2(&mut self, value: bool)
        ensures
            final(self).raw() == spec_with_bit(old(self).raw(), 0x10, value),
    {
        self.bits = if value {
            self.bits | 0x10
        } else {
            self.bits & !0x10
        };
    }

    /// Reads the `rx_flush` field: Flush receive FIFO (true: self-clearing flush).
    #[verifier::when_used_as_spec(spec_rx_flush)]
    pub fn rx_flush(&self) -> (r: bool)
        ensures
            r == self.spec_rx_flush(),
    {
        self.bits & 0x04 != 0
    }

    /// Writes the `rx_flush` field.
    pub fn set_rx_flush(&mut self, value: bool)
        ensures
            final(self).raw() == spec_with_bit(old(self).raw(), 0x04, value),
    {
        self.bits = if value {
            self.bits | 0x04
        } else {
            self.bits & !0x04
        };
    }

    /// Reads the `ensop_2` field: Enable SOP'' packets (true: enabled).
    #[verifier::when_used_as_spec(spec_ensop_2)]
    pub fn ensop_2(&self) -> (r: bool)
        ensures
            r == self.spec_ensop_2(),
    {
        self.bits & 0x02 != 0
    }

    /// Writes the `ensop_2` field.
    pub fn set_ensop_2(&mut self, value: bool)
        ensures
            final(self).raw() == spec_with_bit(old(self).raw(), 0x02, value),
    {
        self.bits = if value {
            self.bits | 0x02
        } else {
            self.bits & !0x02
        };
    }

    /// Reads the `ensop_1` field: Enable SOP' packets (true: enabled).
    #[verifier::when_used_as_spec(spec_ensop_1)]
    pub fn ensop_1(&self) -> (r: bool)
        ensures
            r == self.spec_ensop_1(),
    {
        self.bits & 0x01 != 0
    }

    /// Writes the `ensop_1` field.
    pub fn set_ensop_1(&mut self, value: bool)
        ensures
            final(self).raw() == spec_with_bit(old(self).raw(), 0x01, value),
    {
        self.bits = if value {
            self.bits | 0x01
        } else {
            self.bits & !0x01
        };
    }
}


/// Control Register 2.
#[derive(Clone, Copy, Debug, PartialEq, Eq, Structural)]
pub struct Control2 {
    bits: u8,
}

impl FieldSet for Control2 {
    closed spec fn raw(&self) -> u8 {
        self.bits
    }

    fn from_byte(byte: u8) -> (r: Self) {
        Control2 { bits: byte }
    }

    fn to_byte(&self) -> (b: u8) {
        self.bits
    }
}

impl Control2 {

    /// Toggle save power setting.
    pub open spec fn spec_tog_save_pwr(&self) -> TogSavePwr {
        TogSavePwr::spec_from_field(spec_field(self.raw(), 6, 0x03))
    }

    /// Toggle Rd only (true: stop on Rd only).
    pub open spec fn spec_tog_rd_only(&self) -> bool {
        spec_bit(self.raw(), 0x20)
    }

    /// Wake detection enable (true: enabled).
    pub open spec fn spec_wake_en(&self) -> bool {
        spec_bit(self.raw(), 0x08)
    }

    /// Toggle mode selection.
    pub open spec fn spec_mode(&self) -> Result<ToggleMode, ConversionError> {
        ToggleMode::spec_try_from_raw(spec_field(self.raw(), 1, 0x03))
    }

    /// Enable toggle (true: autonomous DRP/SNK/SRC toggle).
    pub open spec fn spec_toggle(&self) -> bool {
        spec_bit(self.raw(), 0x01)
    }

    /// Creates a new snapshot, loaded with the register's reset value.
    pub fn new() -> (r: Self)
        ensures
            r.raw() == 0,
    {
        Control2 { bits: 0 }
    }

    /// Creates a new snapshot, loaded with all zeroes.
    pub fn new_zero() -> (r: Self)
        ensures
            r.raw() == 0,
    {
        Control2 { bits: 0 }
    }

    /// Reads the `tog_save_pwr` field: Toggle save power setting.
    #[verifier::when_used_as_spec(spec_tog_save_pwr)]
    pub fn tog_save_pwr(&self) -> (r: TogSavePwr)
        ensures
            r == self.spec_tog_save_pwr(),
    {
        TogSavePwr::from_field((self.bits >> 6u8) & 0x03)
    }

    /// Writes the `tog_save_pwr` field.
    pub fn set_tog_save_pwr(&mut self, value: TogSavePwr)
        ensures
            final(self).raw() == spec_with_field(old(self).raw(), 6, 0x03, value.spec_to_raw()),
    {
        self.bits = (self.bits & !(0x03u8 << 6u8)) | ((value.to_raw() & 0x03) << 6u8);
    }

    /// Reads the `tog_rd_only` field: Toggle Rd only (true: stop on Rd only).
    #[verifier::when_used_as_spec(spec_tog_rd_only)]
    pub fn tog_rd_only(&self) -> (r: bool)
        ensures
            r == self.spec_tog_rd_only(),
    {
        self.bits & 0x20 != 0
    }

    /// Writes the `tog_rd_only` field.
    pub fn set_tog_rd_only(&mut self, value: bool)
        ensures
            final(self).raw() == spec_with_bit(old(self).raw(), 0x20, value),
    {
        self.bits = if value {
            self.bits | 0x20
        } else {
            self.bits & !0x20
        };
    }

    /// Reads the `wake_en` field: Wake detection enable (true: enabled).
    #[verifier::when_used_as_spec(spec_wake_en)]
    pub fn wake_en(&self) -> (r: bool)
        ensures
            r == self.spec_wake_en(),
    {
        self.bits & 0x08 != 0
    }

    /// Writes the `wake_en` field.
    pub fn set_wake_en(&mut self, value: bool)
        ensures
            final(self).raw() == spec_with_bit(old(self).raw(), 0x08, value),
    {
        self.bits = if value {
            self.bits | 0x08
        } else {
            self.bits & !0x08
        };
    }

    /// Reads the `mode` field: Toggle mode selection.  A raw code outside the
    /// defined set of `ToggleMode` is reported as an error, never as a
    /// default value.
    #[verifier::when_used_as_spec(spec_mode)]
    pub fn mode(&self) -> (r: Result<ToggleMode, ConversionError>)
        ensures
            r == self.spec_mode(),
    {
        ToggleMode::try_from_raw((self.bits >> 1u8) & 0x03)
    }

    /// Writes the `mode` field.
    pub fn set_mode(&mut self, value: ToggleMode)
        ensures
            final(self).raw() == spec_with_field(old(self).raw(), 1, 0x03, value.spec_to_raw()),
    {
        self.bits = (self.bits & !(0x03u8 << 1u8)) | ((value.to_raw() & 0x03) << 1u8);
    }

    /// Reads the `toggle` field: Enable toggle (true: autonomous DRP/SNK/SRC toggle).
    #[verifier::when_used_as_spec(spec_toggle)]
    pub fn toggle(&self) -> (r: bool)
        ensures
            r == self.spec_toggle(),
    {
        self.bits & 0x01 != 0
    }

    /// Writes the `toggle` field.
    pub fn set_toggle(&mut self, value: bool)
        ensures
            final(self).raw() == spec_with_bit(old(self).raw(), 0x01, value),
    {
        self.bits = if value {
            self.bits | 0x01
        } else {
            self.bits & !0x01
        };
    }
}


/// Control Register 3.
#[derive(Clone, Copy, Debug, PartialEq, Eq, Structural)]
pub struct Control3 {
    bits: u8,
}

impl FieldSet for Control3 {
    closed spec fn raw(&self) -> u8 {
        self.bits
    }

    fn from_byte(byte: u8) -> (r: Self) {
        Control3 { bits: byte }
    }

    fn to_byte(&self) -> (b: u8) {
        self.bits
    }
}

impl Control3 {

    /// Send hard reset (true: initiate, self-clearing).
    pub open spec fn spec_send_hard_reset(&self) -> bool {
        spec_bit(self.raw(), 0x40)
    }

    /// BIST test mode (true: clear RxFIFO after GoodCRC).
    pub open spec fn spec_bist_tmode(&self) -> bool {
        spec_bit(self.raw(), 0x20)
    }

    /// Auto hard reset on soft reset fail (true: enabled).
    pub open spec fn spec_auto_hardreset(&self) -> bool {
        spec_bit(self.raw(), 0x10)
    }

    /// Auto soft reset on retries fail (true: enabled).
    pub open spec fn spec_auto_softreset(&self) -> bool {
        spec_bit(self.raw(), 0x08)
    }

    /// Number of packet retries.
    pub open spec fn spec_n_retries(&self) -> RetryCount {
        RetryCount::spec_from_field(spec_field(self.raw(), 1, 0x03))
    }

    /// Auto retry on no GoodCRC (true: enabled).
    pub open spec fn spec_auto_retry(&self) -> bool {
        spec_bit(self.raw(), 0x01)
    }

    /// Creates a new snapshot, loaded with the register's reset value.
    pub fn new() -> (r: Self)
        ensures
            r.raw() == 0,
    {
        Control3 { bits: 0 }
    }

    /// Creates a new snapshot, loaded with all zeroes.
    pub fn new_zero() -> (r: Self)
        ensures
            r.raw() == 0,
    {
        Control3 { bits: 0 }
    }

    /// Reads the `send_hard_reset` field: Send hard reset (true: initiate, self-clearing).
    #[verifier::when_used_as_spec(spec_send_hard_reset)]
    pub fn send_hard_reset(&self) -> (r: bool)
        ensures
            r == self.spec_send_hard_reset(),
    {
        self.bits & 0x40 != 0
    }

    /// Writes the `send_hard_reset` field.
    pub fn set_send_hard_reset(&mut self, value: bool)
        ensures
            final(self).raw() == spec_with_bit(old(self).raw(), 0x40, value),
    {
        self.bits = if value {
            self.bits | 0x40
        } else {
            self.bits & !0x40
        };
    }

    /// Reads the `bist_tmode` field: BIST test mode (true: clear RxFIFO after GoodCRC).
    #[verifier::when_used_as_spec(spec_bist_tmode)]
    pub fn bist_tmode(&self) -> (r: bool)
        ensures
            r == self.spec_bist_tmode(),
    {
        self.bits & 0x20 != 0
    }

    /// Writes the `bist_tmode` field.
    pub fn set_bist_tmode(&mut self, value: bool)
        ensures
            final(self).raw() == spec_with_bit(old(self).raw(), 0x20, value),
    {
        self.bits = if value {
            self.bits | 0x20
        } else {
            self.bits & !0x20
        };
    }

    /// Reads the `auto_hardreset` field: Auto hard reset on soft reset fail (true: enabled).
    #[verifier::when_used_as_spec(spec_auto_hardreset)]
    pub fn auto_hardreset(&self) -> (r: bool)
        ensures
            r == self.spec_auto_hardreset(),
    {
        self.bits & 0x10 != 0
    }

    /// Writes the `auto_hardreset` field.
    pub fn set_auto_hardreset(&mut self, value: bool)
        ensures
            final(self).raw() == spec_with_bit(old(self).raw(), 0x10, value),
    {
        self.bits = if value {
            self.bits | 0x10
        } else {
            self.bits & !0x10
        };
    }

    /// Reads the `auto_softreset` field: Auto soft reset on retries fail (true: enabled).
    #[verifier::when_used_as_spec(spec_auto_softreset)]
    pub fn auto_softreset(&self) -> (r: bool)
        ensures
            r == self.spec_auto_softreset(),
    {
        self.bits & 0x08 != 0
    }

    /// Writes the `auto_softreset` field.
    pub fn set_auto_softreset(&mut self, value: bool)
        ensures
            final(self).raw() == spec_with_bit(old(self).raw(), 0x08, value),
    {
        self.bits = if value {
            self.bits | 0x08
        } else {
            self.bits & !0x08
        };
    }

    /// Reads the `n_retries` field: Number of packet retries.
    #[verifier::when_used_as_spec(spec_n_retries)]
    pub fn n_retries(&self) -> (r: RetryCount)
        ensures
            r == self.spec_n_retries(),
    {
        RetryCount::from_field((self.bits >> 1u8) & 0x03)
    }

    /// Writes the `n_retries` field.
    pub fn set_n_retries(&mut self, value: RetryCount)
        ensures
            final(self).raw() == spec_with_field(old(self).raw(), 1, 0x03, value.spec_to_raw()),
    {
        self.bits = (self.bits & !(0x03u8 << 1u8)) | ((value.to_raw() & 0x03) << 1u8);
    }

    /// Reads the `auto_retry` field: Auto retry on no GoodCRC (true: enabled).
    #[verifier::when_used_as_spec(spec_auto_retry)]
    pub fn auto_retry(&self) -> (r: bool)
        ensures
            r == self.spec_auto_retry(),
    {
        self.bits & 0x01 != 0
    }

    /// Writes the `auto_retry` field.
    pub fn set_auto_retry(&mut self, value: bool)
        ensures
            final(self).raw() == spec_with_bit(old(self).raw(), 0x01, value),
    {
        self.bits = if value {
            self.bits | 0x01
        } else {
            self.bits & !0x01
        };
    }
}


/// Interrupt Mask Register.
#[derive(Clone, Copy, Debug, PartialEq, Eq, Structural)]
pub struct Mask {
    bits: u8,
}

impl FieldSet for Mask {
    closed spec fn raw(&self) -> u8 {
        self.bits
    }

    fn from_byte(byte: u8) -> (r: Self) {
        Mask { bits: byte }
    }

    fn to_byte(&self) -> (b: u8) {
        self.bits
    }
}

impl Mask {

    /// Mask I_VBUSOK interrupt (true: masked).
    pub open spec fn spec_m_vbusok(&self) -> bool {
        spec_bit(self.raw(), 0x80)
    }

    /// Mask I_ACTIVITY interrupt (true: masked).
    pub open spec fn spec_m_activity(&self) -> bool {
        spec_bit(self.raw(), 0x40)
    }

    /// Mask I_COMP_CHNG interrupt (true: masked).
    pub open spec fn spec_m_comp_chng(&self) -> bool {
        spec_bit(self.raw(), 0x20)
    }

    /// Mask I_CRC_CHK interrupt (true: masked).
    pub open spec fn spec_m_crc_chk(&self) -> bool {
        spec_bit(self.raw(), 0x10)
    }

    /// Mask I_ALERT interrupt (true: masked).
    pub open spec fn spec_m_alert(&self) -> bool {
        spec_bit(self.raw(), 0x08)
    }

    /// Mask I_WAKE interrupt (true: masked).
    pub open spec fn spec_m_wake(&self) -> bool {
        spec_bit(self.raw(), 0x04)
    }

    /// Mask I_COLLISION interrupt (true: masked).
    pub open spec fn spec_m_collision(&self) -> bool {
        spec_bit(self.raw(), 0x02)
    }

    /// Mask I_BC_LVL interrupt (true: masked).
    pub open spec fn spec_m_bc_lvl(&self) -> bool {
        spec_bit(self.raw(), 0x01)
    }

    /// Creates a new snapshot, loaded with the register's reset value.
    pub fn new() -> (r: Self)
        ensures
            r.raw() == 0,
    {
        Mask { bits: 0 }
    }

    /// Creates a new snapshot, loaded with all zeroes.
    pub fn new_zero() -> (r: Self)
        ensures
            r.raw() == 0,
    {
        Mask { bits: 0 }
    }

    /// Reads the `m_vbusok` field: Mask I_VBUSOK interrupt (true: masked).
    #[verifier::when_used_as_spec(spec_m_vbusok)]
    pub fn m_vbusok(&self) -> (r: bool)
        ensures
            r == self.spec_m_vbusok(),
    {
        self.bits & 0x80 != 0
    }

    /// Writes the `m_vbusok` field.
    pub fn set_m_vbusok(&mut self, value: bool)
        ensures
            final(self).raw() == spec_with_bit(old(self).raw(), 0x80, value),
    {
        self.bits = if value {
            self.bits | 0x80
        } else {
            self.bits & !0x80
        };
    }

    /// Reads the `m_activity` field: Mask I_ACTIVITY interrupt (true: masked).
    #[verifier::when_used_as_spec(spec_m_activity)]
    pub fn m_activity(&self) -> (r: bool)
        ensures
            r == self.spec_m_activity(),
    {
        self.bits & 0x40 != 0
    }

    /// Writes the `m_activity` field.
    pub fn set_m_activity(&mut self, value: bool)
        ensures
            final(self).raw() == spec_with_bit(old(self).raw(), 0x40, value),
    {
        self.bits = if value {
            self.bits | 0x40
        } else {
            self.bits & !0x40
        };
    }

    /// Reads the `m_comp_chng` field: Mask I_COMP_CHNG interrupt (true: masked).
    #[verifier::when_used_as_spec(spec_m_comp_chng)]
    pub fn m_comp_chng(&self) -> (r: bool)
        ensures
            r == self.spec_m_comp_chng(),
    {
        self.bits & 0x20 != 0
    }

    /// Writes the `m_comp_chng` field.
    pub fn set_m_comp_chng(&mut self, value: bool)
        ensures
            final(self).raw() == spec_with_bit(old(self).raw(), 0x20, value),
    {
        self.bits = if value {
            self.bits | 0x20
        } else {
            self.bits & !0x20
        };
    }

    /// Reads the `m_crc_chk` field: Mask I_CRC_CHK interrupt (true: masked).
    #[verifier::when_used_as_spec(spec_m_crc_chk)]
    pub fn m_crc_chk(&self) -> (r: bool)
        ensures
            r == self.spec_m_crc_chk(),
    {
        self.bits & 0x10 != 0
    }

    /// Writes the `m_crc_chk` field.
    pub fn set_m_crc_chk(&mut self, value: bool)
        ensures
            final(self).raw() == spec_with_bit(old(self).raw(), 0x10, value),
    {
        self.bits = if value {
            self.bits | 0x10
        } else {
            self.bits & !0x10
        };
    }

    /// Reads the `m_alert` field: Mask I_ALERT interrupt (true: masked).
    #[verifier::when_used_as_spec(spec_m_alert)]
    pub fn m_alert(&self) -> (r: bool)
        ensures
            r == self.spec_m_alert(),
    {
        self.bits & 0x08 != 0
    }

    /// Writes the `m_alert` field.
    pub fn set_m_alert(&mut self, value: bool)
        ensures
            final(self).raw() == spec_with_bit(old(self).raw(), 0x08, value),
    {
        self.bits = if value {
            self.bits | 0x08
        } else {
            self.bits & !0x08
        };
    }

    /// Reads the `m_wake` field: Mask I_WAKE interrupt (true: masked).
    #[verifier::when_used_as_spec(spec_m_wake)]
    pub fn m_wake(&self) -> (r: bool)
        ensures
            r == self.spec_m_wake(),
    {
        self.bits & 0x04 != 0
    }

    /// Writes the `m_wake` field.
    pub fn set_m_wake(&mut self, value: bool)
        ensures
            final(self).raw() == spec_with_bit(old(self).raw(), 0x04, value),
    {
        self.bits = if value {
            self.bits | 0x04
        } else {
            self.bits & !0x04
        };
    }

    /// Reads the `m_collision` field: Mask I_COLLISION interrupt (true: masked).
    #[verifier::when_used_as_spec(spec_m_collision)]
    pub fn m_collision(&self) -> (r: bool)
        ensures
            r == self.spec_m_collision(),
    {
        self.bits & 0x02 != 0
    }

    /// Writes the `m_collision` field.
    pub fn set_m_collision(&mut self, value: bool)
        ensures
            final(self).raw() == spec_with_bit(old(self).raw(), 0x02, value),
    {
        self.bits = if value {
            self.bits | 0x02
        } else {
            self.bits & !0x02
        };
    }

    /// Reads the `m_bc_lvl` field: Mask I_BC_LVL interrupt (true: masked).
    #[verifier::when_used_as_spec(spec_m_bc_lvl)]
    pub fn m_bc_lvl(&self) -> (r: bool)
        ensures
            r == self.spec_m_bc_lvl(),
    {
        self.bits & 0x01 != 0
    }

    /// Writes the `m_bc_lvl` field.
    pub fn set_m_bc_lvl(&mut self, value: bool)
        ensures
            final(self).raw() == spec_with_bit(old(self).raw(), 0x01, value),
    {
        self.bits = if value {
            self.bits | 0x01
        } else {
            self.bits & !0x01
        };
    }
}


/// Power Control Register.
#[derive(Clone, Copy, Debug, PartialEq, Eq, Structural)]
pub struct Power {
    bits: u8,
}

impl FieldSet for Power {
    closed spec fn raw(&self) -> u8 {
        self.bits
    }

    fn from_byte(byte: u8) -> (r: Self) {
        Power { bits: byte }
    }

    fn to_byte(&self) -> (b: u8) {
        self.bits
    }
}

impl Power {

    /// Power control bits (bitwise enables for components).
    pub open spec fn spec_pwr(&self) -> u8 {
        spec_field(self.raw(), 0, 0x0F)
    }

    /// Bandgap and wake circuit power enable.
    pub open spec fn spec_pwr_0_bandgap_and_wake_enable(&self) -> bool {
        spec_bit(self.raw(), 0x01)
    }

    /// Receiver and current reference power enable.
    pub open spec fn spec_pwr_1_receiver_and_measure_refs_enable(&self) -> bool {
        spec_bit(self.raw(), 0x02)
    }

    /// Measure block power enable.
    pub open spec fn spec_pwr_2_measure_block_power_enable(&self) -> bool {
        spec_bit(self.raw(), 0x04)
    }

    /// Internal oscillator power enable.
    pub open spec fn spec_pwr_3_internal_oscillator_enable(&self) -> bool {
        spec_bit(self.raw(), 0x08)
    }

    /// Creates a new snapshot, loaded with the register's reset value.
    pub fn new() -> (r: Self)
        ensures
            r.raw() == 0,
    {
        Power { bits: 0 }
    }

    /// Creates a new snapshot, loaded with all zeroes.
    pub fn new_zero() -> (r: Self)
        ensures
            r.raw() == 0,
    {
        Power { bits: 0 }
    }

    /// Reads the `pwr` field: Power control bits (bitwise enables for components).
    #[verifier::when_used_as_spec(spec_pwr)]
    pub fn pwr(&self) -> (r: u8)
        ensures
            r == self.spec_pwr(),
    {
        (self.bits >> 0u8) & 0x0F
    }

    /// Writes the `pwr` field.
    pub fn set_pwr(&mut self, value: u8)
        ensures
            final(self).raw() == spec_with_field(old(self).raw(), 0, 0x0F, value),
    {
        self.bits = (self.bits & !(0x0Fu8 << 0u8)) | ((value & 0x0F) << 0u8);
    }

    /// Reads the `pwr_0_bandgap_and_wake_enable` field: Bandgap and wake circuit power enable.
    #[verifier::when_used_as_spec(spec_pwr_0_bandgap_and_wake_enable)]
    pub fn pwr_0_bandgap_and_wake_enable(&self) -> (r: bool)
        ensures
            r == self.spec_pwr_0_bandgap_and_wake_enable(),
    {
        self.bits & 0x01 != 0
    }

    /// Writes the `pwr_0_bandgap_and_wake_enable` field.
    pub fn set_pwr_0_bandgap_and_wake_enable(&mut self, value: bool)
        ensures
            final(self).raw() == spec_with_bit(old(self).raw(), 0x01, value),
    {
        self.bits = if value {
            self.bits | 0x01
        } else {
            self.bits & !0x01
        };
    }

    /// Reads the `pwr_1_receiver_and_measure_refs_enable` field: Receiver and current reference power enable.
    #[verifier::when_used_as_spec(spec_pwr_1_receiver_and_measure_refs_enable)]
    pub fn pwr_1_receiver_and_measure_refs_enable(&self) -> (r: bool)
        ensures
            r == self.spec_pwr_1_receiver_and_measure_refs_enable(),
    {
        self.bits & 0x02 != 0
    }

    /// Writes the `pwr_1_receiver_and_measure_refs_enable` field.
    pub fn set_pwr_1_receiver_and_measure_refs_enable(&mut self, value: bool)
        ensures
            final(self).raw() == spec_with_bit(old(self).raw(), 0x02, value),
    {
        self.bits = if value {
            self.bits | 0x02
        } else {
            self.bits & !0x02
        };
    }

    /// Reads the `pwr_2_measure_block_power_enable` field: Measure block power enable.
    #[verifier::when_used_as_spec(spec_pwr_2_measure_block_power_enable)]
    pub fn pwr_2_measure_block_power_enable(&self) -> (r: bool)
        ensures
            r == self.spec_pwr_2_measure_block_power_enable(),
    {
        self.bits & 0x04 != 0
    }

    /// Writes the `pwr_2_measure_block_power_enable` field.
    pub fn set_pwr_2_measure_block_power_enable(&mut self, value: bool)
        ensures
            final(self).raw() == spec_with_bit(old(self).raw(), 0x04, value),
    {
        self.bits = if value {
            self.bits | 0x04
        } else {
            self.bits & !0x04
        };
    }

    /// Reads the `pwr_3_internal_oscillator_enable` field: Internal oscillator power enable.
    #[verifier::when_used_as_spec(spec_pwr_3_internal_oscillator_enable)]
    pub fn pwr_3_internal_oscillator_enable(&self) -> (r: bool)
        ensures
            r == self.spec_pwr_3_internal_oscillator_enable(),
    {
        self.bits & 0x08 != 0
    }

    /// Writes the `pwr_3_internal_oscillator_enable` field.
    pub fn set_pwr_3_internal_oscillator_enable(&mut self, value: bool)
        ensures
            final(self).raw() == spec_with_bit(old(self).raw(), 0x08, value),
    {
        self.bits = if value {
            self.bits | 0x08
        } else {
            self.bits & !0x08
        };
    }
}


/// Reset Control Register.
#[derive(Clone, Copy, Debug, PartialEq, Eq, Structural)]
pub struct Reset {
    bits: u8,
}

impl FieldSet for Reset {
    closed spec fn raw(&self) -> u8 {
        self.bits
    }

    fn from_byte(byte: u8) -> (r: Self) {
        Reset { bits: byte }
    }

    fn to_byte(&self) -> (b: u8) {
        self.bits
    }
}

impl Reset {

    /// Reset PD logic (true: reset, self-clearing).
    pub open spec fn spec_pd_reset(&self) -> bool {
        spec_bit(self.raw(), 0x02)
    }

    /// Software reset (true: reset entire device, self-clearing).
    pub open spec fn spec_sw_res(&self) -> bool {
        spec_bit(self.raw(), 0x01)
    }

    /// Creates a new snapshot, loaded with the register's reset value.
    pub fn new() -> (r: Self)
        ensures
            r.raw() == 0,
    {
        Reset { bits: 0 }
    }

    /// Creates a new snapshot, loaded with all zeroes.
    pub fn new_zero() -> (r: Self)
        ensures
            r.raw() == 0,
    {
        Reset { bits: 0 }
    }

    /// Reads the `pd_reset` field: Reset PD logic (true: reset, self-clearing).
    #[verifier::when_used_as_spec(spec_pd_reset)]
    pub fn pd_reset(&self) -> (r: bool)
        ensures
            r == self.spec_pd_reset(),
    {
        self.bits & 0x02 != 0
    }

    /// Writes the `pd_reset` field.
    pub fn set_pd_reset(&mut self, value: bool)
        ensures
            final(self).raw() == spec_with_bit(old(self).raw(), 0x02, value),
    {
        self.bits = if value {
            self.bits | 0x02
        } else {
            self.bits & !0x02
        };
    }

    /// Reads the `sw_res` field: Software reset (true: reset entire device, self-clearing).
    #[verifier::when_used_as_spec(spec_sw_res)]
    pub fn sw_res(&self) -> (r: bool)
        ensures
            r == self.spec_sw_res(),
    {
        self.bits & 0x01 != 0
    }

    /// Writes the `sw_res` field.
    pub fn set_sw_res(&mut self, value: bool)
        ensures
            final(self).raw() == spec_with_bit(old(self).raw(), 0x01, value),
    {
        self.bits = if value {
            self.bits | 0x01
        } else {
            self.bits & !0x01
        };
    }
}


/// Over-Current Protection Register.
#[derive(Clone, Copy, Debug, PartialEq, Eq, Structural)]
pub struct Ocpreg {
    bits: u8,
}

impl FieldSet for Ocpreg {
    closed spec fn raw(&self) -> u8 {
        self.bits
    }

    fn from_byte(byte: u8) -> (r: Self) {
        Ocpreg { bits: byte }
    }

    fn to_byte(&self) -> (b: u8) {
        self.bits
    }
}

impl Ocpreg {

    /// OCP range (true: 100-800mA, false: 10-80mA).
    pub open spec fn spec_ocp_range(&self) -> bool {
        spec_bit(self.raw(), 0x08)
    }

    /// OCP current setting (fraction of max range).
    pub open spec fn spec_ocp_cur(&self) -> u8 {
        spec_field(self.raw(), 0, 0x07)
    }

    /// Creates a new snapshot, loaded with the register's reset value.
    pub fn new() -> (r: Self)
        ensures
            r.raw() == 0,
    {
        Ocpreg { bits: 0 }
    }

    /// Creates a new snapshot, loaded with all zeroes.
    pub fn new_zero() -> (r: Self)
        ensures
            r.raw() == 0,
    {
        Ocpreg { bits: 0 }
    }

    /// Reads the `ocp_range` field: OCP range (true: 100-800mA, false: 10-80mA).
    #[verifier::when_used_as_spec(spec_ocp_range)]
    pub fn ocp_range(&self) -> (r: bool)
        ensures
            r == self.spec_ocp_range(),
    {
        self.bits & 0x08 != 0
    }

    /// Writes the `ocp_range` field.
    pub fn set_ocp_range(&mut self, value: bool)
        ensures
            final(self).raw() == spec_with_bit(old(self).raw(), 0x08, value),
    {
        self.bits = if value {
            self.bits | 0x08
        } else {
            self.bits & !0x08
        };
    }

    /// Reads the `ocp_cur` field: OCP current setting (fraction of max range).
    #[verifier::when_used_as_spec(spec_ocp_cur)]
    pub fn ocp_cur(&self) -> (r: u8)
        ensures
            r == self.spec_ocp_cur(),
    {
        (self.bits >> 0u8) & 0x07
    }

    /// Writes the `ocp_cur` field.
    pub fn set_ocp_cur(&mut self, value: u8)
        ensures
            final(self).raw() == spec_with_field(old(self).raw(), 0, 0x07, value),
    {
        self.bits = (self.bits & !(0x07u8 << 0u8)) | ((value & 0x07) << 0u8);
    }
}


/// Interrupt Mask Register A.
#[derive(Clone, Copy, Debug, PartialEq, Eq, Structural)]
pub struct Maska {
    bits: u8,
}

impl FieldSet for Maska {
    closed spec fn raw(&self) -> u8 {
        self.bits
    }

    fn from_byte(byte: u8) -> (r: Self) {
        Maska { bits: byte }
    }

    fn to_byte(&self) -> (b: u8) {
        self.bits
    }
}

impl Maska {

    /// Mask I_OCP_TEMP interrupt (true: masked).
    pub open spec fn spec_m_ocp_temp(&self) -> bool {
        spec_bit(self.raw(), 0x80)
    }

    /// Mask I_TOGDONE interrupt (true: masked).
    pub open spec fn spec_m_togdone(&self) -> bool {
        spec_bit(self.raw(), 0x40)
    }

    /// Mask I_SOFTFAIL interrupt (true: masked).
    pub open spec fn spec_m_softfail(&self) -> bool {
        spec_bit(self.raw(), 0x20)
    }

    /// Mask I_RETRYFAIL interrupt (true: masked).
    pub open spec fn spec_m_retryfail(&self) -> bool {
        spec_bit(self.raw(), 0x10)
    }

    /// Mask I_HARDSENT interrupt (true: masked).
    pub open spec fn spec_m_hardsent(&self) -> bool {
        spec_bit(self.raw(), 0x08)
    }

    /// Mask I_TXSENT interrupt (true: masked).
    pub open spec fn spec_m_txsent(&self) -> bool {
        spec_bit(self.raw(), 0x04)
    }

    /// Mask I_SOFTRST interrupt (true: masked).
    pub open spec fn spec_m_softrst(&self) -> bool {
        spec_bit(self.raw(), 0x02)
    }

    /// Mask I_HARDRST interrupt (true: masked).
    pub open spec fn spec_m_hardrst(&self) -> bool {
        spec_bit(self.raw(), 0x01)
    }

    /// Creates a new snapshot, loaded with the register's reset value.
    pub fn new() -> (r: Self)
        ensures
            r.raw() == 0,
    {
        Maska { bits: 0 }
    }

    /// Creates a new snapshot, loaded with all zeroes.
    pub fn new_zero() -> (r: Self)
        ensures
            r.raw() == 0,
    {
        Maska { bits: 0 }
    }

    /// Reads the `m_ocp_temp` field: Mask I_OCP_TEMP interrupt (true: masked).
    #[verifier::when_used_as_spec(spec_m_ocp_temp)]
    pub fn m_ocp_temp(&self) -> (r: bool)
        ensures
            r == self.spec_m_ocp_temp(),
    {
        self.bits & 0x80 != 0
    }

    /// Writes the `m_ocp_temp` field.
    pub fn set_m_ocp_temp(&mut self, value: bool)
        ensures
            final(self).raw() == spec_with_bit(old(self).raw(), 0x80, value),
    {
        self.bits = if value {
            self.bits | 0x80
        } else {
            self.bits & !0x80
        };
    }

    /// Reads the `m_togdone` field: Mask I_TOGDONE interrupt (true: masked).
    #[verifier::when_used_as_spec(spec_m_togdone)]
    pub fn m_togdone(&self) -> (r: bool)
        ensures
            r == self.spec_m_togdone(),
    {
        self.bits & 0x40 != 0
    }

    /// Writes the `m_togdone` field.
    pub fn set_m_togdone(&mut self, value: bool)
        ensures
            final(self).raw() == spec_with_bit(old(self).raw(), 0x40, value),
    {
        self.bits = if value {
            self.bits | 0x40
        } else {
            self.bits & !0x40
        };
    }

    /// Reads the `m_softfail` field: Mask I_SOFTFAIL interrupt (true: masked).
    #[verifier::when_used_as_spec(spec_m_softfail)]
    pub fn m_softfail(&self) -> (r: bool)
        ensures
            r == self.spec_m_softfail(),
    {
        self.bits & 0x20 != 0
    }

    /// Writes the `m_softfail` field.
    pub fn set_m_softfail(&mut self, value: bool)
        ensures
            final(self).raw() == spec_with_bit(old(self).raw(), 0x20, value),
    {
        self.bits = if value {
            self.bits | 0x20
        } else {
            self.bits & !0x20
        };
    }

    /// Reads the `m_retryfail` field: Mask I_RETRYFAIL interrupt (true: masked).
    #[verifier::when_used_as_spec(spec_m_retryfail)]
    pub fn m_retryfail(&self) -> (r: bool)
        ensures
            r == self.spec_m_retryfail(),
    {
        self.bits & 0x10 != 0
    }

    /// Writes the `m_retryfail` field.
    pub fn set_m_retryfail(&mut self, value: bool)
        ensures
            final(self).raw() == spec_with_bit(old(self).raw(), 0x10, value),
    {
        self.bits = if value {
            self.bits | 0x10
        } else {
            self.bits & !0x10
        };
    }

    /// Reads the `m_hardsent` field: Mask I_HARDSENT interrupt (true: masked).
    #[verifier::when_used_as_spec(spec_m_hardsent)]
    pub fn m_hardsent(&self) -> (r: bool)
        ensures
            r == self.spec_m_hardsent(),
    {
        self.bits & 0x08 != 0
    }

    /// Writes the `m_hardsent` field.
    pub fn set_m_hardsent(&mut self, value: bool)
        ensures
            final(self).raw() == spec_with_bit(old(self).raw(), 0x08, value),
    {
        self.bits = if value {
            self.bits | 0x08
        } else {
            self.bits & !0x08
        };
    }

    /// Reads the `m_txsent` field: Mask I_TXSENT interrupt (true: masked).
    #[verifier::when_used_as_spec(spec_m_txsent)]
    pub fn m_txsent(&self) -> (r: bool)
        ensures
            r == self.spec_m_txsent(),
    {
        self.bits & 0x04 != 0
    }

    /// Writes the `m_txsent` field.
    pub fn set_m_txsent(&mut self, value: bool)
        ensures
            final(self).raw() == spec_with_bit(old(self).raw(), 0x04, value),
    {
        self.bits = if value {
            self.bits | 0x04
        } else {
            self.bits & !0x04
        };
    }

    /// Reads the `m_softrst` field: Mask I_SOFTRST interrupt (true: masked).
    #[verifier::when_used_as_spec(spec_m_softrst)]
    pub fn m_softrst(&self) -> (r: bool)
        ensures
            r == self.spec_m_softrst(),
    {
        self.bits & 0x02 != 0
    }

    /// Writes the `m_softrst` field.
    pub fn set_m_softrst(&mut self, value: bool)
        ensures
            final(self).raw() == spec_with_bit(old(self).raw(), 0x02, value),
    {
        self.bits = if value {
            self.bits | 0x02
        } else {
            self.bits & !0x02
        };
    }

    /// Reads the `m_hardrst` field: Mask I_HARDRST interrupt (true: masked).
    #[verifier::when_used_as_spec(spec_m_hardrst)]
    pub fn m_hardrst(&self) -> (r: bool)
        ensures
            r == self.spec_m_hardrst(),
    {
        self.bits & 0x01 != 0
    }

    /// Writes the `m_hardrst` field.
    pub fn set_m_hardrst(&mut self, value: bool)
        ensures
            final(self).raw() == spec_with_bit(old(self).raw(), 0x01, value),
    {
        self.bits = if value {
            self.bits | 0x01
        } else {
            self.bits & !0x01
        };
    }
}


/// Interrupt Mask Register B.
#[derive(Clone, Copy, Debug, PartialEq, Eq, Structural)]
pub struct Maskb {
    bits: u8,
}

impl FieldSet for Maskb {
    closed spec fn raw(&self) -> u8 {
        self.bits
    }

    fn from_byte(byte: u8) -> (r: Self) {
        Maskb { bits: byte }
    }

    fn to_byte(&self) -> (b: u8) {
        self.bits
    }
}

impl Maskb {

    /// Mask I_GCRCSENT interrupt (true: masked).
    pub open spec fn spec_m_gcrcsent(&self) -> bool {
        spec_bit(self.raw(), 0x01)
    }

    /// Creates a new snapshot, loaded with the register's reset value.
    pub fn new() -> (r: Self)
        ensures
            r.raw() == 0,
    {
        Maskb { bits: 0 }
    }

    /// Creates a new snapshot, loaded with all zeroes.
    pub fn new_zero() -> (r: Self)
        ensures
            r.raw() == 0,
    {
        Maskb { bits: 0 }
    }

    /// Reads the `m_gcrcsent` field: Mask I_GCRCSENT interrupt (true: masked).
    #[verifier::when_used_as_spec(spec_m_gcrcsent)]
    pub fn m_gcrcsent(&self) -> (r: bool)
        ensures
            r == self.spec_m_gcrcsent(),
    {
        self.bits & 0x01 != 0
    }

    /// Writes the `m_gcrcsent` field.
    pub fn set_m_gcrcsent(&mut self, value: bool)
        ensures
            final(self).raw() == spec_with_bit(old(self).raw(), 0x01, value),
    {
        self.bits = if value {
            self.bits | 0x01
        } else {
            self.bits & !0x01
        };
    }
}


/// Control Register 4.
#[derive(Clone, Copy, Debug, PartialEq, Eq, Structural)]
pub struct Control4 {
    bits: u8,
}

impl FieldSet for Control4 {
    closed spec fn raw(&self) -> u8 {
        self.bits
    }

    fn from_byte(byte: u8) -> (r: Self) {
        Control4 { bits: byte }
    }

    fn to_byte(&self) -> (b: u8) {
        self.bits
    }
}

impl Control4 {

    /// Toggle exit on audio accessory (true: stop on Ra both CC).
    pub open spec fn spec_tog_exit_aud(&self) -> bool {
        spec_bit(self.raw(), 0x01)
    }

    /// Creates a new snapshot, loaded with the register's reset value.
    pub fn new() -> (r: Self)
        ensures
            r.raw() == 0,
    {
        Control4 { bits: 0 }
    }

    /// Creates a new snapshot, loaded with all zeroes.
    pub fn new_zero() -> (r: Self)
        ensures
            r.raw() == 0,
    {
        Control4 { bits: 0 }
    }

    /// Reads the `tog_exit_aud` field: Toggle exit on audio accessory (true: stop on Ra both CC).
    #[verifier::when_used_as_spec(spec_tog_exit_aud)]
    pub fn tog_exit_aud(&self) -> (r: bool)
        ensures
            r == self.spec_tog_exit_aud(),
    {
        self.bits & 0x01 != 0
    }

    /// Writes the `tog_exit_aud` field.
    pub fn set_tog_exit_aud(&mut self, value: bool)
        ensures
            final(self).raw() == spec_with_bit(old(self).raw(), 0x01, value),
    {
        self.bits = if value {
            self.bits | 0x01
        } else {
            self.bits & !0x01
        };
    }
}


/// Status Register 0A.
#[derive(Clone, Copy, Debug, PartialEq, Eq, Structural)]
pub struct Status0A {
    bits: u8,
}

impl FieldSet for Status0A {
    closed spec fn raw(&self) -> u8 {
        self.bits
    }

    fn from_byte(byte: u8) -> (r: Self) {
        Status0A { bits: byte }
    }

    fn to_byte(&self) -> (b: u8) {
        self.bits
    }
}

impl Status0A {

    /// Soft reset retries failed (true: failed).
    pub open spec fn spec_softfail(&self) -> bool {
        spec_bit(self.raw(), 0x20)
    }

    /// Packet retries failed (true: failed).
    pub open spec fn spec_retryfail(&self) -> bool {
        spec_bit(self.raw(), 0x10)
    }

    /// Internal power state bits.
    pub open spec fn spec_power(&self) -> u8 {
        spec_field(self.raw(), 2, 0x03)
    }

    /// Soft reset packet received (true: received).
    pub open spec fn spec_softrst(&self) -> bool {
        spec_bit(self.raw(), 0x02)
    }

    /// Hard reset received (true: received).
    pub open spec fn spec_hardrst(&self) -> bool {
        spec_bit(self.raw(), 0x01)
    }

    /// Creates a new snapshot, loaded with the register's reset value.
    pub fn new() -> (r: Self)
        ensures
            r.raw() == 0,
    {
        Status0A { bits: 0 }
    }

    /// Creates a new snapshot, loaded with all zeroes.
    pub fn new_zero() -> (r: Self)
        ensures
            r.raw() == 0,
    {
        Status0A { bits: 0 }
    }

    /// Reads the `softfail` field: Soft reset retries failed (true: failed).
    #[verifier::when_used_as_spec(spec_softfail)]
    pub fn softfail(&self) -> (r: bool)
        ensures
            r == self.spec_softfail(),
    {
        self.bits & 0x20 != 0
    }

    /// Writes the `softfail` field.
    pub fn set_softfail(&mut self, value: bool)
        ensures
            final(self).raw() == spec_with_bit(old(self).raw(), 0x20, value),
    {
        self.bits = if value {
            self.bits | 0x20
        } else {
            self.bits & !0x20
        };
    }

    /// Reads the `retryfail` field: Packet retries failed (true: failed).
    #[verifier::when_used_as_spec(spec_retryfail)]
    pub fn retryfail(&self) -> (r: bool)
        ensures
            r == self.spec_retryfail(),
    {
        self.bits & 0x10 != 0
    }

    /// Writes the `retryfail` field.
    pub fn set_retryfail(&mut self, value: bool)
        ensures
            final(self).raw() == spec_with_bit(old(self).raw(), 0x10, value),
    {
        self.bits = if value {
            self.bits | 0x10
        } else {
            self.bits & !0x10
        };
    }

    /// Reads the `power` field: Internal power state bits.
    #[verifier::when_used_as_spec(spec_power)]
    pub fn power(&self) -> (r: u8)
        ensures
            r == self.spec_power(),
    {
        (self.bits >> 2u8) & 0x03
    }

    /// Writes the `power` field.
    pub fn set_power(&mut self, value: u8)
        ensures
            final(self).raw() == spec_with_field(old(self).raw(), 2, 0x03, value),
    {
        self.bits = (self.bits & !(0x03u8 << 2u8)) | ((value & 0x03) << 2u8);
    }

    /// Reads the `softrst` field: Soft reset packet received (true: received).
    #[verifier::when_used_as_spec(spec_softrst)]
    pub fn softrst(&self) -> (r: bool)
        ensures
            r == self.spec_softrst(),
    {
        self.bits & 0x02 != 0
    }

    /// Writes the `softrst` field.
    pub fn set_softrst(&mut self, value: bool)
        ensures
            final(self).raw() == spec_with_bit(old(self).raw(), 0x02, value),
    {
        self.bits = if value {
            self.bits | 0x02
        } else {
            self.bits & !0x02
        };
    }

    /// Reads the `hardrst` field: Hard reset received (true: received).
    #[verifier::when_used_as_spec(spec_hardrst)]
    pub fn hardrst(&self) -> (r: bool)
        ensures
            r == self.spec_hardrst(),
    {
        self.bits & 0x01 != 0
    }

    /// Writes the `hardrst` field.
    pub fn set_hardrst(&mut self, value: bool)
        ensures
            final(self).raw() == spec_with_bit(old(self).raw(), 0x01, value),
    {
        self.bits = if value {
            self.bits | 0x01
        } else {
            self.bits & !0x01
        };
    }
}


/// Status Register 1A.
#[derive(Clone, Copy, Debug, PartialEq, Eq, Structural)]
pub struct Status1A {
    bits: u8,
}

impl FieldSet for Status1A {
    closed spec fn raw(&self) -> u8 {
        self.bits
    }

    fn from_byte(byte: u8) -> (r: Self) {
        Status1A { bits: byte }
    }

    fn to_byte(&self) -> (b: u8) {
        self.bits
    }
}

impl Status1A {

    /// Toggle state status.
    pub open spec fn spec_togss(&self) -> Result<ToggleState, ConversionError> {
        ToggleState::spec_try_from_raw(spec_field(self.raw(), 3, 0x07))
    }

    /// Last packet SOP'' Debug (true: yes).
    pub open spec fn spec_rxsop_2_db(&self) -> bool {
        spec_bit(self.raw(), 0x04)
    }

    /// Last packet SOP' Debug (true: yes).
    pub open spec fn spec_rxsop_1_db(&self) -> bool {
        spec_bit(self.raw(), 0x02)
    }

    /// Last packet SOP (true: yes).
    pub open spec fn spec_rxsop(&self) -> bool {
        spec_bit(self.raw(), 0x01)
    }

    /// Creates a new snapshot, loaded with the register's reset value.
    pub fn new() -> (r: Self)
        ensures
            r.raw() == 0,
    {
        Status1A { bits: 0 }
    }

    /// Creates a new snapshot, loaded with all zeroes.
    pub fn new_zero() -> (r: Self)
        ensures
            r.raw() == 0,
    {
        Status1A { bits: 0 }
    }

    /// Reads the `togss` field: Toggle state status.  A raw code outside the
    /// defined set of `ToggleState` is reported as an error, never as a
    /// default value.
    #[verifier::when_used_as_spec(spec_togss)]
    pub fn togss(&self) -> (r: Result<ToggleState, ConversionError>)
        ensures
            r == self.spec_togss(),
    {
        ToggleState::try_from_raw((self.bits >> 3u8) & 0x07)
    }

    /// Writes the `togss` field.
    pub fn set_togss(&mut self, value: ToggleState)
        ensures
            final(self).raw() == spec_with_field(old(self).raw(), 3, 0x07, value.spec_to_raw()),
    {
        self.bits = (self.bits & !(0x07u8 << 3u8)) | ((value.to_raw() & 0x07) << 3u8);
    }

    /// Reads the `rxsop_2_db` field: Last packet SOP'' Debug (true: yes).
    #[verifier::when_used_as_spec(spec_rxsop_2_db)]
    pub fn rxsop_2_db(&self) -> (r: bool)
        ensures
            r == self.spec_rxsop_2_db(),
    {
        self.bits & 0x04 != 0
    }

    /// Writes the `rxsop_2_db` field.
    pub fn set_rxsop_2_db(&mut self, value: bool)
        ensures
            final(self).raw() == spec_with_bit(old(self).raw(), 0x04, value),
    {
        self.bits = if value {
            self.bits | 0x04
        } else {
            self.bits & !0x04
        };
    }

    /// Reads the `rxsop_1_db` field: Last packet SOP' Debug (true: yes).
    #[verifier::when_used_as_spec(spec_rxsop_1_db)]
    pub fn rxsop_1_db(&self) -> (r: bool)
        ensures
            r == self.spec_rxsop_1_db(),
    {
        self.bits & 0x02 != 0
    }

    /// Writes the `rxsop_1_db` field.
    pub fn set_rxsop_1_db(&mut self, value: bool)
        ensures
            final(self).raw() == spec_with_bit(old(self).raw(), 0x02, value),
    {
        self.bits = if value {
            self.bits | 0x02
        } else {
            self.bits & !0x02
        };
    }

    /// Reads the `rxsop` field: Last packet SOP (true: yes).
    #[verifier::when_used_as_spec(spec_rxsop)]
    pub fn rxsop(&self) -> (r: bool)
        ensures
            r == self.spec_rxsop(),
    {
        self.bits & 0x01 != 0
    }

    /// Writes the `rxsop` field.
    pub fn set_rxsop(&mut self, value: bool)
        ensures
            final(self).raw() == spec_with_bit(old(self).raw(), 0x01, value),
    {
        self.bits = if value {
            self.bits | 0x01
        } else {
            self.bits & !0x01
        };
    }
}


/// Interrupt Register A (read/clear).
#[derive(Clone, Copy, Debug, PartialEq, Eq, Structural)]
pub struct Interrupta {
    bits: u8,
}

impl FieldSet for Interrupta {
    closed spec fn raw(&self) -> u8 {
        self.bits
    }

    fn from_byte(byte: u8) -> (r: Self) {
        Interrupta { bits: byte }
    }

    fn to_byte(&self) -> (b: u8) {
        self.bits
    }
}

impl Interrupta {

    /// OCP or over-temp interrupt (true: occurred).
    pub open spec fn spec_i_ocp_temp(&self) -> bool {
        spec_bit(self.raw(), 0x80)
    }

    /// Toggle done interrupt (true: occurred).
    pub open spec fn spec_i_togdone(&self) -> bool {
        spec_bit(self.raw(), 0x40)
    }

    /// Soft reset fail interrupt (true: occurred).
    pub open spec fn spec_i_softfail(&self) -> bool {
        spec_bit(self.raw(), 0x20)
    }

    /// Retry fail interrupt (true: occurred).
    pub open spec fn spec_i_retryfail(&self) -> bool {
        spec_bit(self.raw(), 0x10)
    }

    /// Hard reset sent interrupt (true: occurred).
    pub open spec fn spec_i_hardsent(&self) -> bool {
        spec_bit(self.raw(), 0x08)
    }

    /// Packet sent interrupt (true: occurred).
    pub open spec fn spec_i_txsent(&self) -> bool {
        spec_bit(self.raw(), 0x04)
    }

    /// Soft reset received interrupt (true: occurred).
    pub open spec fn spec_i_softrst(&self) -> bool {
        spec_bit(self.raw(), 0x02)
    }

    /// Hard reset received interrupt (true: occurred).
    pub open spec fn spec_i_hardrst(&self) -> bool {
        spec_bit(self.raw(), 0x01)
    }

    /// Creates a new snapshot, loaded with the register's reset value.
    pub fn new() -> (r: Self)
        ensures
            r.raw() == 0,
    {
        Interrupta { bits: 0 }
    }

    /// Creates a new snapshot, loaded with all zeroes.
    pub fn new_zero() -> (r: Self)
        ensures
            r.raw() == 0,
    {
        Interrupta { bits: 0 }
    }

    /// Reads the `i_ocp_temp` field: OCP or over-temp interrupt (true: occurred).
    #[verifier::when_used_as_spec(spec_i_ocp_temp)]
    pub fn i_ocp_temp(&self) -> (r: bool)
        ensures
            r == self.spec_i_ocp_temp(),
    {
        self.bits & 0x80 != 0
    }

    /// Writes the `i_ocp_temp` field.
    pub fn set_i_ocp_temp(&mut self, value: bool)
        ensures
            final(self).raw() == spec_with_bit(old(self).raw(), 0x80, value),
    {
        self.bits = if value {
            self.bits | 0x80
        } else {
            self.bits & !0x80
        };
    }

    /// Reads the `i_togdone` field: Toggle done interrupt (true: occurred).
    #[verifier::when_used_as_spec(spec_i_togdone)]
    pub fn i_togdone(&self) -> (r: bool)
        ensures
            r == self.spec_i_togdone(),
    {
        self.bits & 0x40 != 0
    }

    /// Writes the `i_togdone` field.
    pub fn set_i_togdone(&mut self, value: bool)
        ensures
            final(self).raw() == spec_with_bit(old(self).raw(), 0x40, value),
    {
        self.bits = if value {
            self.bits | 0x40
        } else {
            self.bits & !0x40
        };
    }

    /// Reads the `i_softfail` field: Soft reset fail interrupt (true: occurred).
    #[verifier::when_used_as_spec(spec_i_softfail)]
    pub fn i_softfail(&self) -> (r: bool)
        ensures
            r == self.spec_i_softfail(),
    {
        self.bits & 0x20 != 0
    }

    /// Writes the `i_softfail` field.
    pub fn set_i_softfail(&mut self, value: bool)
        ensures
            final(self).raw() == spec_with_bit(old(self).raw(), 0x20, value),
    {
        self.bits = if value {
            self.bits | 0x20
        } else {
            self.bits & !0x20
        };
    }

    /// Reads the `i_retryfail` field: Retry fail interrupt (true: occurred).
    #[verifier::when_used_as_spec(spec_i_retryfail)]
    pub fn i_retryfail(&self) -> (r: bool)
        ensures
            r == self.spec_i_retryfail(),
    {
        self.bits & 0x10 != 0
    }

    /// Writes the `i_retryfail` field.
    pub fn set_i_retryfail(&mut self, value: bool)
        ensures
            final(self).raw() == spec_with_bit(old(self).raw(), 0x10, value),
    {
        self.bits = if value {
            self.bits | 0x10
        } else {
            self.bits & !0x10
        };
    }

    /// Reads the `i_hardsent` field: Hard reset sent interrupt (true: occurred).
    #[verifier::when_used_as_spec(spec_i_hardsent)]
    pub fn i_hardsent(&self) -> (r: bool)
        ensures
            r == self.spec_i_hardsent(),
    {
        self.bits & 0x08 != 0
    }

    /// Writes the `i_hardsent` field.
    pub fn set_i_hardsent(&mut self, value: bool)
        ensures
            final(self).raw() == spec_with_bit(old(self).raw(), 0x08, value),
    {
        self.bits = if value {
            self.bits | 0x08
        } else {
            self.bits & !0x08
        };
    }

    /// Reads the `i_txsent` field: Packet sent interrupt (true: occurred).
    #[verifier::when_used_as_spec(spec_i_txsent)]
    pub fn i_txsent(&self) -> (r: bool)
        ensures
            r == self.spec_i_txsent(),
    {
        self.bits & 0x04 != 0
    }

    /// Writes the `i_txsent` field.
    pub fn set_i_txsent(&mut self, value: bool)
        ensures
            final(self).raw() == spec_with_bit(old(self).raw(), 0x04, value),
    {
        self.bits = if value {
            self.bits | 0x04
        } else {
            self.bits & !0x04
        };
    }

    /// Reads the `i_softrst` field: Soft reset received interrupt (true: occurred).
    #[verifier::when_used_as_spec(spec_i_softrst)]
    pub fn i_softrst(&self) -> (r: bool)
        ensures
            r == self.spec_i_softrst(),
    {
        self.bits & 0x02 != 0
    }

    /// Writes the `i_softrst` field.
    pub fn set_i_softrst(&mut self, value: bool)
        ensures
            final(self).raw() == spec_with_bit(old(self).raw(), 0x02, value),
    {
        self.bits = if value {
            self.bits | 0x02
        } else {
            self.bits & !0x02
        };
    }

    /// Reads the `i_hardrst` field: Hard reset received interrupt (true: occurred).
    #[verifier::when_used_as_spec(spec_i_hardrst)]
    pub fn i_hardrst(&self) -> (r: bool)
        ensures
            r == self.spec_i_hardrst(),
    {
        self.bits & 0x01 != 0
    }

    /// Writes the `i_hardrst` field.
    pub fn set_i_hardrst(&mut self, value: bool)
        ensures
            final(self).raw() == spec_with_bit(old(self).raw(), 0x01, value),
    {
        self.bits = if value {
            self.bits | 0x01
        } else {
            self.bits & !0x01
        };
    }
}


/// Interrupt Register B (read/clear).
#[derive(Clone, Copy, Debug, PartialEq, Eq, Structural)]
pub struct Interruptb {
    bits: u8,
}

impl FieldSet for Interruptb {
    closed spec fn raw(&self) -> u8 {
        self.bits
    }

    fn from_byte(byte: u8) -> (r: Self) {
        Interruptb { bits: byte }
    }

    fn to_byte(&self) -> (b: u8) {
        self.bits
    }
}

impl Interruptb {

    /// GoodCRC sent interrupt (true: occurred).
    pub open spec fn spec_i_gcrcsent(&self) -> bool {
        spec_bit(self.raw(), 0x01)
    }

    /// Creates a new snapshot, loaded with the register's reset value.
    pub fn new() -> (r: Self)
        ensures
            r.raw() == 0,
    {
        Interruptb { bits: 0 }
    }

    /// Creates a new snapshot, loaded with all zeroes.
    pub fn new_zero() -> (r: Self)
        ensures
            r.raw() == 0,
    {
        Interruptb { bits: 0 }
    }

    /// Reads the `i_gcrcsent` field: GoodCRC sent interrupt (true: occurred).
    #[verifier::when_used_as_spec(spec_i_gcrcsent)]
    pub fn i_gcrcsent(&self) -> (r: bool)
        ensures
            r == self.spec_i_gcrcsent(),
    {
        self.bits & 0x01 != 0
    }

    /// Writes the `i_gcrcsent` field.
    pub fn set_i_gcrcsent(&mut self, value: bool)
        ensures
            final(self).raw() == spec_with_bit(old(self).raw(), 0x01, value),
    {
        self.bits = if value {
            self.bits | 0x01
        } else {
            self.bits & !0x01
        };
    }
}


/// Status Register 0.
#[derive(Clone, Copy, Debug, PartialEq, Eq, Structural)]
pub struct Status0 {
    bits: u8,
}

impl FieldSet for Status0 {
    closed spec fn raw(&self) -> u8 {
        self.bits
    }

    fn from_byte(byte: u8) -> (r: Self) {
        Status0 { bits: byte }
    }

    fn to_byte(&self) -> (b: u8) {
        self.bits
    }
}

impl Status0 {

    /// VBUS OK (true: VBUS valid).
    pub open spec fn spec_vbusok(&self) -> bool {
        spec_bit(self.raw(), 0x80)
    }

    /// CC activity detected (true: active).
    pub open spec fn spec_activity(&self) -> bool {
        spec_bit(self.raw(), 0x40)
    }

    /// Comparator result (true: CC > MDAC).
    pub open spec fn spec_comp(&self) -> bool {
        spec_bit(self.raw(), 0x20)
    }

    /// CRC check valid (true: last packet CRC correct).
    pub open spec fn spec_crc_chk(&self) -> bool {
        spec_bit(self.raw(), 0x10)
    }

    /// Alert condition (true: error occurred).
    pub open spec fn spec_alert(&self) -> bool {
        spec_bit(self.raw(), 0x08)
    }

    /// Wake detected (true: device attempting attach).
    pub open spec fn spec_wake(&self) -> bool {
        spec_bit(self.raw(), 0x04)
    }

    /// Battery charge level on CC.
    pub open spec fn spec_bc_lvl(&self) -> BcLvl {
        BcLvl::spec_from_field(spec_field(self.raw(), 0, 0x03))
    }

    /// Creates a new snapshot, loaded with the register's reset value.
    pub fn new() -> (r: Self)
        ensures
            r.raw() == 0,
    {
        Status0 { bits: 0 }
    }

    /// Creates a new snapshot, loaded with all zeroes.
    pub fn new_zero() -> (r: Self)
        ensures
            r.raw() == 0,
    {
        Status0 { bits: 0 }
    }

    /// Reads the `vbusok` field: VBUS OK (true: VBUS valid).
    #[verifier::when_used_as_spec(spec_vbusok)]
    pub fn vbusok(&self) -> (r: bool)
        ensures
            r == self.spec_vbusok(),
    {
        self.bits & 0x80 != 0
    }

    /// Writes the `vbusok` field.
    pub fn set_vbusok(&mut self, value: bool)
        ensures
            final(self).raw() == spec_with_bit(old(self).raw(), 0x80, value),
    {
        self.bits = if value {
            self.bits | 0x80
        } else {
            self.bits & !0x80
        };
    }

    /// Reads the `activity` field: CC activity detected (true: active).
    #[verifier::when_used_as_spec(spec_activity)]
    pub fn activity(&self) -> (r: bool)
        ensures
            r == self.spec_activity(),
    {
        self.bits & 0x40 != 0
    }

    /// Writes the `activity` field.
    pub fn set_activity(&mut self, value: bool)
        ensures
            final(self).raw() == spec_with_bit(old(self).raw(), 0x40, value),
    {
        self.bits = if value {
            self.bits | 0x40
        } else {
            self.bits & !0x40
        };
    }

    /// Reads the `comp` field: Comparator result (true: CC > MDAC).
    #[verifier::when_used_as_spec(spec_comp)]
    pub fn comp(&self) -> (r: bool)
        ensures
            r == self.spec_comp(),
    {
        self.bits & 0x20 != 0
    }

    /// Writes the `comp` field.
    pub fn set_comp(&mut self, value: bool)
        ensures
            final(self).raw() == spec_with_bit(old(self).raw(), 0x20, value),
    {
        self.bits = if value {
            self.bits | 0x20
        } else {
            self.bits & !0x20
        };
    }

    /// Reads the `crc_chk` field: CRC check valid (true: last packet CRC correct).
    #[verifier::when_used_as_spec(spec_crc_chk)]
    pub fn crc_chk(&self) -> (r: bool)
        ensures
            r == self.spec_crc_chk(),
    {
        self.bits & 0x10 != 0
    }

    /// Writes the `crc_chk` field.
    pub fn set_crc_chk(&mut self, value: bool)
        ensures
            final(self).raw() == spec_with_bit(old(self).raw(), 0x10, value),
    {
        self.bits = if value {
            self.bits | 0x10
        } else {
            self.bits & !0x10
        };
    }

    /// Reads the `alert` field: Alert condition (true: error occurred).
    #[verifier::when_used_as_spec(spec_alert)]
    pub fn alert(&self) -> (r: bool)
        ensures
            r == self.spec_alert(),
    {
        self.bits & 0x08 != 0
    }

    /// Writes the `alert` field.
    pub fn set_alert(&mut self, value: bool)
        ensures
            final(self).raw() == spec_with_bit(old(self).raw(), 0x08, value),
    {
        self.bits = if value {
            self.bits | 0x08
        } else {
            self.bits & !0x08
        };
    }

    /// Reads the `wake` field: Wake detected (true: device attempting attach).
    #[verifier::when_used_as_spec(spec_wake)]
    pub fn wake(&self) -> (r: bool)
        ensures
            r == self.spec_wake(),
    {
        self.bits & 0x04 != 0
    }

    /// Writes the `wake` field.
    pub fn set_wake(&mut self, value: bool)
        ensures
            final(self).raw() == spec_with_bit(old(self).raw(), 0x04, value),
    {
        self.bits = if value {
            self.bits | 0x04
        } else {
            self.bits & !0x04
        };
    }

    /// Reads the `bc_lvl` field: Battery charge level on CC.
    #[verifier::when_used_as_spec(spec_bc_lvl)]
    pub fn bc_lvl(&self) -> (r: BcLvl)
        ensures
            r == self.spec_bc_lvl(),
    {
        BcLvl::from_field((self.bits >> 0u8) & 0x03)
    }

    /// Writes the `bc_lvl` field.
    pub fn set_bc_lvl(&mut self, value: BcLvl)
        ensures
            final(self).raw() == spec_with_field(old(self).raw(), 0, 0x03, value.spec_to_raw()),
    {
        self.bits = (self.bits & !(0x03u8 << 0u8)) | ((value.to_raw() & 0x03) << 0u8);
    }
}


/// Status Register 1.
#[derive(Clone, Copy, Debug, PartialEq, Eq, Structural)]
pub struct Status1 {
    bits: u8,
}

impl FieldSet for Status1 {
    closed spec fn raw(&self) -> u8 {
        self.bits
    }

    fn from_byte(byte: u8) -> (r: Self) {
        Status1 { bits: byte }
    }

    fn to_byte(&self) -> (b: u8) {
        self.bits
    }
}

impl Status1 {

    /// Last packet SOP'' (true: yes).
    pub open spec fn spec_rxsop_2(&self) -> bool {
        spec_bit(self.raw(), 0x80)
    }

    /// Last packet SOP' (true: yes).
    pub open spec fn spec_rxsop_1(&self) -> bool {
        spec_bit(self.raw(), 0x40)
    }

    /// Receive FIFO empty (true: empty).
    pub open spec fn spec_rx_empty(&self) -> bool {
        spec_bit(self.raw(), 0x20)
    }

    /// Receive FIFO full (true: full).
    pub open spec fn spec_rx_full(&self) -> bool {
        spec_bit(self.raw(), 0x10)
    }

    /// Transmit FIFO empty (true: empty).
    pub open spec fn spec_tx_empty(&self) -> bool {
        spec_bit(self.raw(), 0x08)
    }

    /// Transmit FIFO full (true: full).
    pub open spec fn spec_tx_full(&self) -> bool {
        spec_bit(self.raw(), 0x04)
    }

    /// Over-temperature (true: too high).
    pub open spec fn spec_ovrtemp(&self) -> bool {
        spec_bit(self.raw(), 0x02)
    }

    /// Over-current on VCONN (true: occurred).
    pub open spec fn spec_ocp(&self) -> bool {
        spec_bit(self.raw(), 0x01)
    }

    /// Creates a new snapshot, loaded with the register's reset value.
    pub fn new() -> (r: Self)
        ensures
            r.raw() == 0,
    {
        Status1 { bits: 0 }
    }

    /// Creates a new snapshot, loaded with all zeroes.
    pub fn new_zero() -> (r: Self)
        ensures
            r.raw() == 0,
    {
        Status1 { bits: 0 }
    }

    /// Reads the `rxsop_2` field: Last packet SOP'' (true: yes).
    #[verifier::when_used_as_spec(spec_rxsop_2)]
    pub fn rxsop_2(&self) -> (r: bool)
        ensures
            r == self.spec_rxsop_2(),
    {
        self.bits & 0x80 != 0
    }

    /// Writes the `rxsop_2` field.
    pub fn set_rxsop_2(&mut self, value: bool)
        ensures
            final(self).raw() == spec_with_bit(old(self).raw(), 0x80, value),
    {
        self.bits = if value {
            self.bits | 0x80
        } else {
            self.bits & !0x80
        };
    }

    /// Reads the `rxsop_1` field: Last packet SOP' (true: yes).
    #[verifier::when_used_as_spec(spec_rxsop_1)]
    pub fn rxsop_1(&self) -> (r: bool)
        ensures
            r == self.spec_rxsop_1(),
    {
        self.bits & 0x40 != 0
    }

    /// Writes the `rxsop_1` field.
    pub fn set_rxsop_1(&mut self, value: bool)
        ensures
            final(self).raw() == spec_with_bit(old(self).raw(), 0x40, value),
    {
        self.bits = if value {
            self.bits | 0x40
        } else {
            self.bits & !0x40
        };
    }

    /// Reads the `rx_empty` field: Receive FIFO empty (true: empty).
    #[verifier::when_used_as_spec(spec_rx_empty)]
    pub fn rx_empty(&self) -> (r: bool)
        ensures
            r == self.spec_rx_empty(),
    {
        self.bits & 0x20 != 0
    }

    /// Writes the `rx_empty` field.
    pub fn set_rx_empty(&mut self, value: bool)
        ensures
            final(self).raw() == spec_with_bit(old(self).raw(), 0x20, value),
    {
        self.bits = if value {
            self.bits | 0x20
        } else {
            self.bits & !0x20
        };
    }

    /// Reads the `rx_full` field: Receive FIFO full (true: full).
    #[verifier::when_used_as_spec(spec_rx_full)]
    pub fn rx_full(&self) -> (r: bool)
        ensures
            r == self.spec_rx_full(),
    {
        self.bits & 0x10 != 0
    }

    /// Writes the `rx_full` field.
    pub fn set_rx_full(&mut self, value: bool)
        ensures
            final(self).raw() == spec_with_bit(old(self).raw(), 0x10, value),
    {
        self.bits = if value {
            self.bits | 0x10
        } else {
            self.bits & !0x10
        };
    }

    /// Reads the `tx_empty` field: Transmit FIFO empty (true: empty).
    #[verifier::when_used_as_spec(spec_tx_empty)]
    pub fn tx_empty(&self) -> (r: bool)
        ensures
            r == self.spec_tx_empty(),
    {
        self.bits & 0x08 != 0
    }

    /// Writes the `tx_empty` field.
    pub fn set_tx_empty(&mut self, value: bool)
        ensures
            final(self).raw() == spec_with_bit(old(self).raw(), 0x08, value),
    {
        self.bits = if value {
            self.bits | 0x08
        } else {
            self.bits & !0x08
        };
    }

    /// Reads the `tx_full` field: Transmit FIFO full (true: full).
    #[verifier::when_used_as_spec(spec_tx_full)]
    pub fn tx_full(&self) -> (r: bool)
        ensures
            r == self.spec_tx_full(),
    {
        self.bits & 0x04 != 0
    }

    /// Writes the `tx_full` field.
    pub fn set_tx_full(&mut self, value: bool)
        ensures
            final(self).raw() == spec_with_bit(old(self).raw(), 0x04, value),
    {
        self.bits = if value {
            self.bits | 0x04
        } else {
            self.bits & !0x04
        };
    }

    /// Reads the `ovrtemp` field: Over-temperature (true: too high).
    #[verifier::when_used_as_spec(spec_ovrtemp)]
    pub fn ovrtemp(&self) -> (r: bool)
        ensures
            r == self.spec_ovrtemp(),
    {
        self.bits & 0x02 != 0
    }

    /// Writes the `ovrtemp` field.
    pub fn set_ovrtemp(&mut self, value: bool)
        ensures
            final(self).raw() == spec_with_bit(old(self).raw(), 0x02, value),
    {
        self.bits = if value {
            self.bits | 0x02
        } else {
            self.bits & !0x02
        };
    }

    /// Reads the `ocp` field: Over-current on VCONN (true: occurred).
    #[verifier::when_used_as_spec(spec_ocp)]
    pub fn ocp(&self) -> (r: bool)
        ensures
            r == self.spec_ocp(),
    {
        self.bits & 0x01 != 0
    }

    /// Writes the `ocp` field.
    pub fn set_ocp(&mut self, value: bool)
        ensures
            final(self).raw() == spec_with_bit(old(self).raw(), 0x01, value),
    {
        self.bits = if value {
            self.bits | 0x01
        } else {
            self.bits & !0x01
        };
    }
}


/// Interrupt Status Register (read/clear).
#[derive(Clone, Copy, Debug, PartialEq, Eq, Structural)]
pub struct Interrupt {
    bits: u8,
}

impl FieldSet for Interrupt {
    closed spec fn raw(&self) -> u8 {
        self.bits
    }

    fn from_byte(byte: u8) -> (r: Self) {
        Interrupt { bits: byte }
    }

    fn to_byte(&self) -> (b: u8) {
        self.bits
    }
}

impl Interrupt {

    /// VBUSOK interrupt (true: VBUS transitioned).
    pub open spec fn spec_i_vbusok(&self) -> bool {
        spec_bit(self.raw(), 0x80)
    }

    /// Activity interrupt (true: CC activity change).
    pub open spec fn spec_i_activity(&self) -> bool {
        spec_bit(self.raw(), 0x40)
    }

    /// Comparator change interrupt (true: occurred).
    pub open spec fn spec_i_comp_chng(&self) -> bool {
        spec_bit(self.raw(), 0x20)
    }

    /// CRC check interrupt (true: packet validated).
    pub open spec fn spec_i_crc_chk(&self) -> bool {
        spec_bit(self.raw(), 0x10)
    }

    /// Alert interrupt (true: error condition).
    pub open spec fn spec_i_alert(&self) -> bool {
        spec_bit(self.raw(), 0x08)
    }

    /// Wake interrupt (true: device attach attempt).
    pub open spec fn spec_i_wake(&self) -> bool {
        spec_bit(self.raw(), 0x04)
    }

    /// Collision interrupt (true: transmit attempted during activity).
    pub open spec fn spec_i_collision(&self) -> bool {
        spec_bit(self.raw(), 0x02)
    }

    /// BC_LVL interrupt (true: current level changed).
    pub open spec fn spec_i_bc_lvl(&self) -> bool {
        spec_bit(self.raw(), 0x01)
    }

    /// Creates a new snapshot, loaded with the register's reset value.
    pub fn new() -> (r: Self)
        ensures
            r.raw() == 0,
    {
        Interrupt { bits: 0 }
    }

    /// Creates a new snapshot, loaded with all zeroes.
    pub fn new_zero() -> (r: Self)
        ensures
            r.raw() == 0,
    {
        Interrupt { bits: 0 }
    }

    /// Reads the `i_vbusok` field: VBUSOK interrupt (true: VBUS transitioned).
    #[verifier::when_used_as_spec(spec_i_vbusok)]
    pub fn i_vbusok(&self) -> (r: bool)
        ensures
            r == self.spec_i_vbusok(),
    {
        self.bits & 0x80 != 0
    }

    /// Writes the `i_vbusok` field.
    pub fn set_i_vbusok(&mut self, value: bool)
        ensures
            final(self).raw() == spec_with_bit(old(self).raw(), 0x80, value),
    {
        self.bits = if value {
            self.bits | 0x80
        } else {
            self.bits & !0x80
        };
    }

    /// Reads the `i_activity` field: Activity interrupt (true: CC activity change).
    #[verifier::when_used_as_spec(spec_i_activity)]
    pub fn i_activity(&self) -> (r: bool)
        ensures
            r == self.spec_i_activity(),
    {
        self.bits & 0x40 != 0
    }

    /// Writes the `i_activity` field.
    pub fn set_i_activity(&mut self, value: bool)
        ensures
            final(self).raw() == spec_with_bit(old(self).raw(), 0x40, value),
    {
        self.bits = if value {
            self.bits | 0x40
        } else {
            self.bits & !0x40
        };
    }

    /// Reads the `i_comp_chng` field: Comparator change interrupt (true: occurred).
    #[verifier::when_used_as_spec(spec_i_comp_chng)]
    pub fn i_comp_chng(&self) -> (r: bool)
        ensures
            r == self.spec_i_comp_chng(),
    {
        self.bits & 0x20 != 0
    }

    /// Writes the `i_comp_chng` field.
    pub fn set_i_comp_chng(&mut self, value: bool)
        ensures
            final(self).raw() == spec_with_bit(old(self).raw(), 0x20, value),
    {
        self.bits = if value {
            self.bits | 0x20
        } else {
            self.bits & !0x20
        };
    }

    /// Reads the `i_crc_chk` field: CRC check interrupt (true: packet validated).
    #[verifier::when_used_as_spec(spec_i_crc_chk)]
    pub fn i_crc_chk(&self) -> (r: bool)
        ensures
            r == self.spec_i_crc_chk(),
    {
        self.bits & 0x10 != 0
    }

    /// Writes the `i_crc_chk` field.
    pub fn set_i_crc_chk(&mut self, value: bool)
        ensures
            final(self).raw() == spec_with_bit(old(self).raw(), 0x10, value),
    {
        self.bits = if value {
            self.bits | 0x10
        } else {
            self.bits & !0x10
        };
    }

    /// Reads the `i_alert` field: Alert interrupt (true: error condition).
    #[verifier::when_used_as_spec(spec_i_alert)]
    pub fn i_alert(&self) -> (r: bool)
        ensures
            r == self.spec_i_alert(),
    {
        self.bits & 0x08 != 0
    }

    /// Writes the `i_alert` field.
    pub fn set_i_alert(&mut self, value: bool)
        ensures
            final(self).raw() == spec_with_bit(old(self).raw(), 0x08, value),
    {
        self.bits = if value {
            self.bits | 0x08
        } else {
            self.bits & !0x08
        };
    }

    /// Reads the `i_wake` field: Wake interrupt (true: device attach attempt).
    #[verifier::when_used_as_spec(spec_i_wake)]
    pub fn i_wake(&self) -> (r: bool)
        ensures
            r == self.spec_i_wake(),
    {
        self.bits & 0x04 != 0
    }

    /// Writes the `i_wake` field.
    pub fn set_i_wake(&mut self, value: bool)
        ensures
            final(self).raw() == spec_with_bit(old(self).raw(), 0x04, value),
    {
        self.bits = if value {
            self.bits | 0x04
        } else {
            self.bits & !0x04
        };
    }

    /// Reads the `i_collision` field: Collision interrupt (true: transmit attempted during activity).
    #[verifier::when_used_as_spec(spec_i_collision)]
    pub fn i_collision(&self) -> (r: bool)
        ensures
            r == self.spec_i_collision(),
    {
        self.bits & 0x02 != 0
    }

    /// Writes the `i_collision` field.
    pub fn set_i_collision(&mut self, value: bool)
        ensures
            final(self).raw() == spec_with_bit(old(self).raw(), 0x02, value),
    {
        self.bits = if value {
            self.bits | 0x02
        } else {
            self.bits & !0x02
        };
    }

    /// Reads the `i_bc_lvl` field: BC_LVL interrupt (true: current level changed).
    #[verifier::when_used_as_spec(spec_i_bc_lvl)]
    pub fn i_bc_lvl(&self) -> (r: bool)
        ensures
            r == self.spec_i_bc_lvl(),
    {
        self.bits & 0x01 != 0
    }

    /// Writes the `i_bc_lvl` field.
    pub fn set_i_bc_lvl(&mut self, value: bool)
        ensures
            final(self).raw() == spec_with_bit(old(self).raw(), 0x01, value),
    {
        self.bits = if value {
            self.bits | 0x01
        } else {
            self.bits & !0x01
        };
    }
}


/// A register snapshot of any of the chip's registers, tagged by register.
#[derive(Clone, Copy, Debug, PartialEq, Eq, Structural)]
pub enum FieldSetValue {
    /// Device Identification Register.
    DeviceId(DeviceId),
    /// Switch Control Register 0.
    Switches0(Switches0),
    /// Switch Control Register 1.
    Switches1(Switches1),
    /// Measure Control Register.
    Measure(Measure),
    /// Slice Control Register.
    Slice(Slice),
    /// Control Register 0.
    Control0(Control0),
    /// Control Register 1.
    Control1(Control1),
    /// Control Register 2.
    Control2(Control2),
    /// Control Register 3.
    Control3(Control3),
    /// Interrupt Mask Register.
    Mask(Mask),
    /// Power Control Register.
    Power(Power),
    /// Reset Control Register.
    Reset(Reset),
    /// Over-Current Protection Register.
    Ocpreg(Ocpreg),
    /// Interrupt Mask Register A.
    Maska(Maska),
    /// Interrupt Mask Register B.
    Maskb(Maskb),
    /// Control Register 4.
    Control4(Control4),
    /// Status Register 0A.
    Status0A(Status0A),
    /// Status Register 1A.
    Status1A(Status1A),
    /// Interrupt Register A (read/clear).
    Interrupta(Interrupta),
    /// Interrupt Register B (read/clear).
    Interruptb(Interruptb),
    /// Status Register 0.
    Status0(Status0),
    /// Status Register 1.
    Status1(Status1),
    /// Interrupt Status Register (read/clear).
    Interrupt(Interrupt),
}

impl FieldSetValue {
    /// The raw byte content of the wrapped snapshot.
    pub open spec fn spec_raw(self) -> u8 {
        match self {
            FieldSetValue::DeviceId(v) => v.raw(),
            FieldSetValue::Switches0(v) => v.raw(),
            FieldSetValue::Switches1(v) => v.raw(),
            FieldSetValue::Measure(v) => v.raw(),
            FieldSetValue::Slice(v) => v.raw(),
            FieldSetValue::Control0(v) => v.raw(),
            FieldSetValue::Control1(v) => v.raw(),
            FieldSetValue::Control2(v) => v.raw(),
            FieldSetValue::Control3(v) => v.raw(),
            FieldSetValue::Mask(v) => v.raw(),
            FieldSetValue::Power(v) => v.raw(),
            FieldSetValue::Reset(v) => v.raw(),
            FieldSetValue::Ocpreg(v) => v.raw(),
            FieldSetValue::Maska(v) => v.raw(),
            FieldSetValue::Maskb(v) => v.raw(),
            FieldSetValue::Control4(v) => v.raw(),
            FieldSetValue::Status0A(v) => v.raw(),
            FieldSetValue::Status1A(v) => v.raw(),
            FieldSetValue::Interrupta(v) => v.raw(),
            FieldSetValue::Interruptb(v) => v.raw(),
            FieldSetValue::Status0(v) => v.raw(),
            FieldSetValue::Status1(v) => v.raw(),
            FieldSetValue::Interrupt(v) => v.raw(),
        }
    }

    /// The register the wrapped snapshot belongs to.
    pub open spec fn spec_register(self) -> Register {
        match self {
            FieldSetValue::DeviceId(_) => Register::DeviceId,
            FieldSetValue::Switches0(_) => Register::Switches0,
            FieldSetValue::Switches1(_) => Register::Switches1,
            FieldSetValue::Measure(_) => Register::Measure,
            FieldSetValue::Slice(_) => Register::Slice,
            FieldSetValue::Control0(_) => Register::Control0,
            FieldSetValue::Control1(_) => Register::Control1,
            FieldSetValue::Control2(_) => Register::Control2,
            FieldSetValue::Control3(_) => Register::Control3,
            FieldSetValue::Mask(_) => Register::Mask,
            FieldSetValue::Power(_) => Register::Power,
            FieldSetValue::Reset(_) => Register::Reset,
            FieldSetValue::Ocpreg(_) => Register::Ocpreg,
            FieldSetValue::Maska(_) => Register::Maska,
            FieldSetValue::Maskb(_) => Register::Maskb,
            FieldSetValue::Control4(_) => Register::Control4,
            FieldSetValue::Status0A(_) => Register::Status0A,
            FieldSetValue::Status1A(_) => Register::Status1A,
            FieldSetValue::Interrupta(_) => Register::Interrupta,
            FieldSetValue::Interruptb(_) => Register::Interruptb,
            FieldSetValue::Status0(_) => Register::Status0,
            FieldSetValue::Status1(_) => Register::Status1,
            FieldSetValue::Interrupt(_) => Register::Interrupt,
        }
    }
}

} // verus!
