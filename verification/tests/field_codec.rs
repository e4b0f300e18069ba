//! Field sets and enumerated fields: bit-exact encoding, lossless round
//! trips, and rejection of codes outside the defined sets.

use fusb302b::enums::{
    BcLvl, Fusb302Version, HostCurrent, RetryCount, SdacHys, SpecRev, TogSavePwr, ToggleMode,
    ToggleState,
};
use fusb302b::field_sets::{
    Control0, Control2, Control3, DeviceId, FieldSet, Interrupta, Power, Reset, Status0,
    Status1A, Switches0, Switches1,
};

#[test]
fn field_set_round_trips_through_raw_byte() {
    for byte in 0..=255u8 {
        assert_eq!(Switches0::from_byte(byte).to_byte(), byte);
        assert_eq!(Status0::from_byte(byte).to_byte(), byte);
        assert_eq!(Interrupta::from_byte(byte).to_byte(), byte);
    }
}

#[test]
fn new_and_new_zero_are_all_clear() {
    assert_eq!(Switches0::new().to_byte(), 0);
    assert_eq!(Switches0::new_zero().to_byte(), 0);
    assert_eq!(Control3::new().to_byte(), 0);
    assert_eq!(Power::new_zero().to_byte(), 0);
}

#[test]
fn switches0_bits_sit_where_the_data_sheet_says() {
    let mut v = Switches0::new();
    v.set_pdwn_1(true);
    assert_eq!(v.to_byte(), 0x01);
    v.set_pdwn_2(true);
    assert_eq!(v.to_byte(), 0x03);
    v.set_meas_cc_1(true);
    assert_eq!(v.to_byte(), 0x07);
    v.set_meas_cc_2(true);
    assert_eq!(v.to_byte(), 0x0F);
    v.set_pu_en_2(true);
    assert_eq!(v.to_byte(), 0x8F);
    assert!(v.pdwn_1() && v.pdwn_2() && v.meas_cc_1() && v.meas_cc_2() && v.pu_en_2());
    v.set_meas_cc_1(false);
    assert_eq!(v.to_byte(), 0x8B);
    assert!(!v.meas_cc_1());
}

#[test]
fn interrupta_flags_decode_from_raw() {
    let v = Interrupta::from_byte(0x04);
    assert!(v.i_txsent());
    assert!(!v.i_retryfail() && !v.i_hardrst() && !v.i_hardsent());
    let v = Interrupta::from_byte(0x19);
    assert!(v.i_hardrst() && v.i_hardsent() && v.i_retryfail());
    assert!(!v.i_txsent());
}

#[test]
fn power_rails_and_oscillator_bit() {
    let mut v = Power::new();
    v.set_pwr_0_bandgap_and_wake_enable(true);
    v.set_pwr_1_receiver_and_measure_refs_enable(true);
    v.set_pwr_2_measure_block_power_enable(true);
    v.set_pwr_3_internal_oscillator_enable(true);
    assert_eq!(v.to_byte(), 0x0F);
    assert_eq!(v.pwr(), 0x0F);
    v.set_pwr_3_internal_oscillator_enable(false);
    assert_eq!(v.to_byte(), 0x07);
    assert!(!v.pwr_3_internal_oscillator_enable());
}

#[test]
fn reset_bits_are_distinct() {
    let mut sw = Reset::new();
    sw.set_sw_res(true);
    assert_eq!(sw.to_byte(), 0x01);
    let mut pd = Reset::new();
    pd.set_pd_reset(true);
    assert_eq!(pd.to_byte(), 0x02);
}

#[test]
fn control3_retry_configuration_encodes_exactly() {
    let mut v = Control3::new();
    v.set_auto_retry(true);
    v.set_n_retries(RetryCount::TwoRetries);
    v.set_auto_softreset(false);
    v.set_auto_hardreset(false);
    assert_eq!(v.to_byte(), 0x05);
    assert_eq!(v.n_retries(), RetryCount::TwoRetries);
    assert!(v.auto_retry());
    let mut h = Control3::new();
    h.set_send_hard_reset(true);
    assert_eq!(h.to_byte(), 0x40);
}

#[test]
fn multi_bit_fields_mask_their_neighbours() {
    let mut v = Control0::new();
    v.set_host_cur(HostCurrent::High330UA);
    assert_eq!(v.to_byte(), 0x0C);
    assert_eq!(v.host_cur(), HostCurrent::High330UA);
    v.set_tx_flush(true);
    assert_eq!(v.to_byte(), 0x4C);
    assert_eq!(v.host_cur(), HostCurrent::High330UA);
}

#[test]
fn bc_lvl_field_decodes_every_code() {
    assert_eq!(Status0::from_byte(0x00).bc_lvl(), BcLvl::LessThan200MV);
    assert_eq!(Status0::from_byte(0x01).bc_lvl(), BcLvl::Between200And660MV);
    assert_eq!(Status0::from_byte(0x02).bc_lvl(), BcLvl::Between660And1230MV);
    assert_eq!(Status0::from_byte(0xFF).bc_lvl(), BcLvl::GreaterThan1230MV);
    // bits above the field do not leak into it
    assert_eq!(Status0::from_byte(0xFC).bc_lvl(), BcLvl::LessThan200MV);
}

#[test]
fn enumerated_decode_rejects_codes_outside_the_set() {
    assert!(SpecRev::try_from_raw(2).is_err());
    assert!(SpecRev::try_from_raw(3).is_err());
    assert!(ToggleMode::try_from_raw(0).is_err());
    assert!(ToggleState::try_from_raw(3).is_err());
    assert!(ToggleState::try_from_raw(4).is_err());
    assert!(ToggleState::try_from_raw(8).is_err());
    assert!(Fusb302Version::try_from_raw(0).is_err());
    assert!(Fusb302Version::try_from_raw(7).is_err());
    assert!(Fusb302Version::try_from_raw(11).is_err());
    assert!(BcLvl::try_from_raw(4).is_err());
    assert!(RetryCount::try_from_raw(4).is_err());
    assert!(SdacHys::try_from_raw(200).is_err());
    assert!(HostCurrent::try_from_raw(4).is_err());
    assert!(TogSavePwr::try_from_raw(255).is_err());
}

#[test]
fn enumerated_decode_error_carries_the_offending_code() {
    let e = ToggleState::try_from_raw(4).unwrap_err();
    assert_eq!(e.source, 4);
    let e = Fusb302Version::try_from_raw(0xB).unwrap_err();
    assert_eq!(e.source, 0xB);
}

#[test]
fn enumerated_codes_round_trip() {
    let all_toggle = [
        ToggleState::Running,
        ToggleState::SrcCc1,
        ToggleState::SrcCc2,
        ToggleState::SnkCc1,
        ToggleState::SnkCc2,
        ToggleState::AudioAccessory,
    ];
    for t in all_toggle {
        assert_eq!(ToggleState::try_from_raw(t.to_raw()), Ok(t));
    }
    for code in [1u8, 2, 3] {
        assert_eq!(ToggleMode::try_from_raw(code).unwrap().to_raw(), code);
    }
    for code in [8u8, 9, 10] {
        assert_eq!(Fusb302Version::try_from_raw(code).unwrap().to_raw(), code);
    }
}

#[test]
fn partial_enum_fields_report_errors_not_defaults() {
    // toggle mode code 0 is undefined
    let v = Control2::from_byte(0x00);
    assert!(v.mode().is_err());
    let v = Control2::from_byte(0x02);
    assert_eq!(v.mode(), Ok(ToggleMode::DrpPolling));
    // toggle state codes 3 and 4 are undefined
    let v = Status1A::from_byte(3 << 3);
    assert!(v.togss().is_err());
    let v = Status1A::from_byte(5 << 3);
    assert_eq!(v.togss(), Ok(ToggleState::SnkCc1));
}

#[test]
fn version_field_of_device_id() {
    assert_eq!(DeviceId::from_byte(0x90).version_id(), Ok(Fusb302Version::VersionB));
    assert_eq!(DeviceId::from_byte(0x80).version_id(), Ok(Fusb302Version::VersionA));
    assert_eq!(DeviceId::from_byte(0xA1).version_id(), Ok(Fusb302Version::VersionC));
    assert!(DeviceId::from_byte(0x10).version_id().is_err());
    assert!(DeviceId::from_byte(0x00).version_id().is_err());
    assert_eq!(DeviceId::from_byte(0x90).device_id(), 0x90);
}

#[test]
fn switches1_transmit_switch_bits() {
    let mut v = Switches1::new();
    v.set_txcc_1(true);
    v.set_auto_crc(true);
    assert_eq!(v.to_byte(), 0x05);
    assert!(v.txcc_1() && !v.txcc_2() && v.auto_crc());
    v.set_specrev(SpecRev::Revision20);
    assert_eq!(v.to_byte(), 0x25);
    assert_eq!(v.specrev(), Ok(SpecRev::Revision20));
}
