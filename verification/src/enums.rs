//! Enumerated register fields: each is a closed set of named codes.
//!
//! Decoding a raw value outside a field's defined code set is always
//! reported as a [`ConversionError`], never mapped to a default variant.

use vstd::prelude::*;

use crate::fields::ConversionError;

verus! {


/// PD specification revision for GoodCRC packets.
#[derive(Clone, Copy, Debug, PartialEq, Eq, Hash, Structural)]
pub enum SpecRev {
    /// Revision 1.0.
    Revision10,
    /// Revision 2.0.
    Revision20,
}

impl SpecRev {
    /// The raw code of this value.
    pub open spec fn spec_to_raw(self) -> u8 {
        match self {
            SpecRev::Revision10 => 0,
            SpecRev::Revision20 => 1,
        }
    }

    /// Encodes this value as its raw field code.
    #[verifier::when_used_as_spec(spec_to_raw)]
    pub fn to_raw(self) -> (r: u8)
        ensures
            r == self.spec_to_raw(),
    {
        match self {
            SpecRev::Revision10 => 0,
            SpecRev::Revision20 => 1,
        }
    }

    /// Decoding of a raw field code; codes outside the defined set are
    /// rejected.
    pub open spec fn spec_try_from_raw(value: u8) -> Result<SpecRev, ConversionError> {
        match value {
            0 => Ok(SpecRev::Revision10),
            1 => Ok(SpecRev::Revision20),
            _ => Err(ConversionError { source: value }),
        }
    }

    /// Decodes a raw field code.  Exactly the codes of the defined set are
    /// accepted; any other value is an error carrying the offending code,
    /// never a default variant.
    #[verifier::when_used_as_spec(spec_try_from_raw)]
    pub fn try_from_raw(value: u8) -> (r: Result<SpecRev, ConversionError>)
        ensures
            r == SpecRev::spec_try_from_raw(value),
            r is Ok <==> (value == 0 || value == 1),
            r matches Ok(v) ==> v.spec_to_raw() == value,
            r matches Err(e) ==> e.source == value,
    {
        match value {
            0 => Ok(SpecRev::Revision10),
            1 => Ok(SpecRev::Revision20),
            _ => Err(ConversionError { source: value }),
        }
    }
}


/// Hysteresis applied to the slicer DAC.
#[derive(Clone, Copy, Debug, PartialEq, Eq, Hash, Structural)]
pub enum SdacHys {
    /// No hysteresis.
    NoHysteresis,
    /// 85mV hysteresis.
    Hys85MV,
    /// 170mV hysteresis.
    Hys170MV,
    /// 255mV hysteresis.
    Hys255MV,
}

impl SdacHys {
    /// The raw code of this value.
    pub open spec fn spec_to_raw(self) -> u8 {
        match self {
            SdacHys::NoHysteresis => 0,
            SdacHys::Hys85MV => 1,
            SdacHys::Hys170MV => 2,
            SdacHys::Hys255MV => 3,
        }
    }

    /// Encodes this value as its raw field code.
    #[verifier::when_used_as_spec(spec_to_raw)]
    pub fn to_raw(self) -> (r: u8)
        ensures
            r == self.spec_to_raw(),
    {
        match self {
            SdacHys::NoHysteresis => 0,
            SdacHys::Hys85MV => 1,
            SdacHys::Hys170MV => 2,
            SdacHys::Hys255MV => 3,
        }
    }

    /// Decoding of a raw field code; codes outside the defined set are
    /// rejected.
    pub open spec fn spec_try_from_raw(value: u8) -> Result<SdacHys, ConversionError> {
        match value {
            0 => Ok(SdacHys::NoHysteresis),
            1 => Ok(SdacHys::Hys85MV),
            2 => Ok(SdacHys::Hys170MV),
            3 => Ok(SdacHys::Hys255MV),
            _ => Err(ConversionError { source: value }),
        }
    }

    /// Decodes a raw field code.  Exactly the codes of the defined set are
    /// accepted; any other value is an error carrying the offending code,
    /// never a default variant.
    #[verifier::when_used_as_spec(spec_try_from_raw)]
    pub fn try_from_raw(value: u8) -> (r: Result<SdacHys, ConversionError>)
        ensures
            r == SdacHys::spec_try_from_raw(value),
            r is Ok <==> (value == 0 || value == 1 || value == 2 || value == 3),
            r matches Ok(v) ==> v.spec_to_raw() == value,
            r matches Err(e) ==> e.source == value,
    {
        match value {
            0 => Ok(SdacHys::NoHysteresis),
            1 => Ok(SdacHys::Hys85MV),
            2 => Ok(SdacHys::Hys170MV),
            3 => Ok(SdacHys::Hys255MV),
            _ => Err(ConversionError { source: value }),
        }
    }

    /// Total decoding of a field value already masked to the field's width;
    /// every in-range code is defined for this field.
    pub open spec fn spec_from_field(value: u8) -> SdacHys {
        match value {
            0 => SdacHys::NoHysteresis,
            1 => SdacHys::Hys85MV,
            2 => SdacHys::Hys170MV,
            _ => SdacHys::Hys255MV,
        }
    }

    /// Decodes a field value already masked to the field's width.
    #[verifier::when_used_as_spec(spec_from_field)]
    pub fn from_field(value: u8) -> (r: SdacHys)
        ensures
            r == SdacHys::spec_from_field(value),
    {
        match value {
            0 => SdacHys::NoHysteresis,
            1 => SdacHys::Hys85MV,
            2 => SdacHys::Hys170MV,
            _ => SdacHys::Hys255MV,
        }
    }
}


/// Host pull-up current advertised on the CC lines.
#[derive(Clone, Copy, Debug, PartialEq, Eq, Hash, Structural)]
pub enum HostCurrent {
    /// No current.
    NoCurrent,
    /// 80uA - default USB power.
    Default80UA,
    /// 180uA - 1.5A.
    Medium180UA,
    /// 330uA - 3A.
    High330UA,
}

impl HostCurrent {
    /// The raw code of this value.
    pub open spec fn spec_to_raw(self) -> u8 {
        match self {
            HostCurrent::NoCurrent => 0,
            HostCurrent::Default80UA => 1,
            HostCurrent::Medium180UA => 2,
            HostCurrent::High330UA => 3,
        }
    }

    /// Encodes this value as its raw field code.
    #[verifier::when_used_as_spec(spec_to_raw)]
    pub fn to_raw(self) -> (r: u8)
        ensures
            r == self.spec_to_raw(),
    {
        match self {
            HostCurrent::NoCurrent => 0,
            HostCurrent::Default80UA => 1,
            HostCurrent::Medium180UA => 2,
            HostCurrent::High330UA => 3,
        }
    }

    /// Decoding of a raw field code; codes outside the defined set are
    /// rejected.
    pub open spec fn spec_try_from_raw(value: u8) -> Result<HostCurrent, ConversionError> {
        match value {
            0 => Ok(HostCurrent::NoCurrent),
            1 => Ok(HostCurrent::Default80UA),
            2 => Ok(HostCurrent::Medium180UA),
            3 => Ok(HostCurrent::High330UA),
            _ => Err(ConversionError { source: value }),
        }
    }

    /// Decodes a raw field code.  Exactly the codes of the defined set are
    /// accepted; any other value is an error carrying the offending code,
    /// never a default variant.
    #[verifier::when_used_as_spec(spec_try_from_raw)]
    pub fn try_from_raw(value: u8) -> (r: Result<HostCurrent, ConversionError>)
        ensures
            r == HostCurrent::spec_try_from_raw(value),
            r is Ok <==> (value == 0 || value == 1 || value == 2 || value == 3),
            r matches Ok(v) ==> v.spec_to_raw() == value,
            r matches Err(e) ==> e.source == value,
    {
        match value {
            0 => Ok(HostCurrent::NoCurrent),
            1 => Ok(HostCurrent::Default80UA),
            2 => Ok(HostCurrent::Medium180UA),
            3 => Ok(HostCurrent::High330UA),
            _ => Err(ConversionError { source: value }),
        }
    }

    /// Total decoding of a field value already masked to the field's width;
    /// every in-range code is defined for this field.
    pub open spec fn spec_from_field(value: u8) -> HostCurrent {
        match value {
            0 => HostCurrent::NoCurrent,
            1 => HostCurrent::Default80UA,
            2 => HostCurrent::Medium180UA,
            _ => HostCurrent::High330UA,
        }
    }

    /// Decodes a field value already masked to the field's width.
    #[verifier::when_used_as_spec(spec_from_field)]
    pub fn from_field(value: u8) -> (r: HostCurrent)
        ensures
            r == HostCurrent::spec_from_field(value),
    {
        match value {
            0 => HostCurrent::NoCurrent,
            1 => HostCurrent::Default80UA,
            2 => HostCurrent::Medium180UA,
            _ => HostCurrent::High330UA,
        }
    }
}


/// Power-save wait inserted between toggle cycles.
#[derive(Clone, Copy, Debug, PartialEq, Eq, Hash, Structural)]
pub enum TogSavePwr {
    /// No disable state.
    NoDisable,
    /// Wait 40ms between cycles.
    Wait40Ms,
    /// Wait 80ms between cycles.
    Wait80Ms,
    /// Wait 160ms between cycles.
    Wait160Ms,
}

impl TogSavePwr {
    /// The raw code of this value.
    pub open spec fn spec_to_raw(self) -> u8 {
        match self {
            TogSavePwr::NoDisable => 0,
            TogSavePwr::Wait40Ms => 1,
            TogSavePwr::Wait80Ms => 2,
            TogSavePwr::Wait160Ms => 3,
        }
    }

    /// Encodes this value as its raw field code.
    #[verifier::when_used_as_spec(spec_to_raw)]
    pub fn to_raw(self) -> (r: u8)
        ensures
            r == self.spec_to_raw(),
    {
        match self {
            TogSavePwr::NoDisable => 0,
            TogSavePwr::Wait40Ms => 1,
            TogSavePwr::Wait80Ms => 2,
            TogSavePwr::Wait160Ms => 3,
        }
    }

    /// Decoding of a raw field code; codes outside the defined set are
    /// rejected.
    pub open spec fn spec_try_from_raw(value: u8) -> Result<TogSavePwr, ConversionError> {
        match value {
            0 => Ok(TogSavePwr::NoDisable),
            1 => Ok(TogSavePwr::Wait40Ms),
            2 => Ok(TogSavePwr::Wait80Ms),
            3 => Ok(TogSavePwr::Wait160Ms),
            _ => Err(ConversionError { source: value }),
        }
    }

    /// Decodes a raw field code.  Exactly the codes of the defined set are
    /// accepted; any other value is an error carrying the offending code,
    /// never a default variant.
    #[verifier::when_used_as_spec(spec_try_from_raw)]
    pub fn try_from_raw(value: u8) -> (r: Result<TogSavePwr, ConversionError>)
        ensures
            r == TogSavePwr::spec_try_from_raw(value),
            r is Ok <==> (value == 0 || value == 1 || value == 2 || value == 3),
            r matches Ok(v) ==> v.spec_to_raw() == value,
            r matches Err(e) ==> e.source == value,
    {
        match value {
            0 => Ok(TogSavePwr::NoDisable),
            1 => Ok(TogSavePwr::Wait40Ms),
            2 => Ok(TogSavePwr::Wait80Ms),
            3 => Ok(TogSavePwr::Wait160Ms),
            _ => Err(ConversionError { source: value }),
        }
    }

    /// Total decoding of a field value already masked to the field's width;
    /// every in-range code is defined for this field.
    pub open spec fn spec_from_field(value: u8) -> TogSavePwr {
        match value {
            0 => TogSavePwr::NoDisable,
            1 => TogSavePwr::Wait40Ms,
            2 => TogSavePwr::Wait80Ms,
            _ => TogSavePwr::Wait160Ms,
        }
    }

    /// Decodes a field value already masked to the field's width.
    #[verifier::when_used_as_spec(spec_from_field)]
    pub fn from_field(value: u8) -> (r: TogSavePwr)
        ensures
            r == TogSavePwr::spec_from_field(value),
    {
        match value {
            0 => TogSavePwr::NoDisable,
            1 => TogSavePwr::Wait40Ms,
            2 => TogSavePwr::Wait80Ms,
            _ => TogSavePwr::Wait160Ms,
        }
    }
}


/// Role polled for by the autonomous toggle logic.
#[derive(Clone, Copy, Debug, PartialEq, Eq, Hash, Structural)]
pub enum ToggleMode {
    /// SRC polling.
    SrcPolling,
    /// SNK polling.
    SnkPolling,
    /// DRP polling.
    DrpPolling,
}

impl ToggleMode {
    /// The raw code of this value.
    pub open spec fn spec_to_raw(self) -> u8 {
        match self {
            ToggleMode::SrcPolling => 3,
            ToggleMode::SnkPolling => 2,
            ToggleMode::DrpPolling => 1,
        }
    }

    /// Encodes this value as its raw field code.
    #[verifier::when_used_as_spec(spec_to_raw)]
    pub fn to_raw(self) -> (r: u8)
        ensures
            r == self.spec_to_raw(),
    {
        match self {
            ToggleMode::SrcPolling => 3,
            ToggleMode::SnkPolling => 2,
            ToggleMode::DrpPolling => 1,
        }
    }

    /// Decoding of a raw field code; codes outside the defined set are
    /// rejected.
    pub open spec fn spec_try_from_raw(value: u8) -> Result<ToggleMode, ConversionError> {
        match value {
            3 => Ok(ToggleMode::SrcPolling),
            2 => Ok(ToggleMode::SnkPolling),
            1 => Ok(ToggleMode::DrpPolling),
            _ => Err(ConversionError { source: value }),
        }
    }

    /// Decodes a raw field code.  Exactly the codes of the defined set are
    /// accepted; any other value is an error carrying the offending code,
    /// never a default variant.
    #[verifier::when_used_as_spec(spec_try_from_raw)]
    pub fn try_from_raw(value: u8) -> (r: Result<ToggleMode, ConversionError>)
        ensures
            r == ToggleMode::spec_try_from_raw(value),
            r is Ok <==> (value == 3 || value == 2 || value == 1),
            r matches Ok(v) ==> v.spec_to_raw() == value,
            r matches Err(e) ==> e.source == value,
    {
        match value {
            3 => Ok(ToggleMode::SrcPolling),
            2 => Ok(ToggleMode::SnkPolling),
            1 => Ok(ToggleMode::DrpPolling),
            _ => Err(ConversionError { source: value }),
        }
    }
}


/// Number of hardware packet retries.
#[derive(Clone, Copy, Debug, PartialEq, Eq, Hash, Structural)]
pub enum RetryCount {
    /// No retries.
    NoRetries,
    /// 1 retry.
    OneRetry,
    /// 2 retries.
    TwoRetries,
    /// 3 retries.
    ThreeRetries,
}

impl RetryCount {
    /// The raw code of this value.
    pub open spec fn spec_to_raw(self) -> u8 {
        match self {
            RetryCount::NoRetries => 0,
            RetryCount::OneRetry => 1,
            RetryCount::TwoRetries => 2,
            RetryCount::ThreeRetries => 3,
        }
    }

    /// Encodes this value as its raw field code.
    #[verifier::when_used_as_spec(spec_to_raw)]
    pub fn to_raw(self) -> (r: u8)
        ensures
            r == self.spec_to_raw(),
    {
        match self {
            RetryCount::NoRetries => 0,
            RetryCount::OneRetry => 1,
            RetryCount::TwoRetries => 2,
            RetryCount::ThreeRetries => 3,
        }
    }

    /// Decoding of a raw field code; codes outside the defined set are
    /// rejected.
    pub open spec fn spec_try_from_raw(value: u8) -> Result<RetryCount, ConversionError> {
        match value {
            0 => Ok(RetryCount::NoRetries),
            1 => Ok(RetryCount::OneRetry),
            2 => Ok(RetryCount::TwoRetries),
            3 => Ok(RetryCount::ThreeRetries),
            _ => Err(ConversionError { source: value }),
        }
    }

    /// Decodes a raw field code.  Exactly the codes of the defined set are
    /// accepted; any other value is an error carrying the offending code,
    /// never a default variant.
    #[verifier::when_used_as_spec(spec_try_from_raw)]
    pub fn try_from_raw(value: u8) -> (r: Result<RetryCount, ConversionError>)
        ensures
            r == RetryCount::spec_try_from_raw(value),
            r is Ok <==> (value == 0 || value == 1 || value == 2 || value == 3),
            r matches Ok(v) ==> v.spec_to_raw() == value,
            r matches Err(e) ==> e.source == value,
    {
        match value {
            0 => Ok(RetryCount::NoRetries),
            1 => Ok(RetryCount::OneRetry),
            2 => Ok(RetryCount::TwoRetries),
            3 => Ok(RetryCount::ThreeRetries),
            _ => Err(ConversionError { source: value }),
        }
    }

    /// Total decoding of a field value already masked to the field's width;
    /// every in-range code is defined for this field.
    pub open spec fn spec_from_field(value: u8) -> RetryCount {
        match value {
            0 => RetryCount::NoRetries,
            1 => RetryCount::OneRetry,
            2 => RetryCount::TwoRetries,
            _ => RetryCount::ThreeRetries,
        }
    }

    /// Decodes a field value already masked to the field's width.
    #[verifier::when_used_as_spec(spec_from_field)]
    pub fn from_field(value: u8) -> (r: RetryCount)
        ensures
            r == RetryCount::spec_from_field(value),
    {
        match value {
            0 => RetryCount::NoRetries,
            1 => RetryCount::OneRetry,
            2 => RetryCount::TwoRetries,
            _ => RetryCount::ThreeRetries,
        }
    }
}


/// Where the autonomous toggle logic has settled.
#[derive(Clone, Copy, Debug, PartialEq, Eq, Hash, Structural)]
pub enum ToggleState {
    /// Toggle logic running.
    Running,
    /// Settled to SRC on CC1.
    SrcCc1,
    /// Settled to SRC on CC2.
    SrcCc2,
    /// Settled to SNK on CC1.
    SnkCc1,
    /// Settled to SNK on CC2.
    SnkCc2,
    /// Audio accessory detected.
    AudioAccessory,
}

impl ToggleState {
    /// The raw code of this value.
    pub open spec fn spec_to_raw(self) -> u8 {
        match self {
            ToggleState::Running => 0,
            ToggleState::SrcCc1 => 1,
            ToggleState::SrcCc2 => 2,
            ToggleState::SnkCc1 => 5,
            ToggleState::SnkCc2 => 6,
            ToggleState::AudioAccessory => 7,
        }
    }

    /// Encodes this value as its raw field code.
    #[verifier::when_used_as_spec(spec_to_raw)]
    pub fn to_raw(self) -> (r: u8)
        ensures
            r == self.spec_to_raw(),
    {
        match self {
            ToggleState::Running => 0,
            ToggleState::SrcCc1 => 1,
            ToggleState::SrcCc2 => 2,
            ToggleState::SnkCc1 => 5,
            ToggleState::SnkCc2 => 6,
            ToggleState::AudioAccessory => 7,
        }
    }

    /// Decoding of a raw field code; codes outside the defined set are
    /// rejected.
    pub open spec fn spec_try_from_raw(value: u8) -> Result<ToggleState, ConversionError> {
        match value {
            0 => Ok(ToggleState::Running),
            1 => Ok(ToggleState::SrcCc1),
            2 => Ok(ToggleState::SrcCc2),
            5 => Ok(ToggleState::SnkCc1),
            6 => Ok(ToggleState::SnkCc2),
            7 => Ok(ToggleState::AudioAccessory),
            _ => Err(ConversionError { source: value }),
        }
    }

    /// Decodes a raw field code.  Exactly the codes of the defined set are
    /// accepted; any other value is an error carrying the offending code,
    /// never a default variant.
    #[verifier::when_used_as_spec(spec_try_from_raw)]
    pub fn try_from_raw(value: u8) -> (r: Result<ToggleState, ConversionError>)
        ensures
            r == ToggleState::spec_try_from_raw(value),
            r is Ok <==> (value == 0 || value == 1 || value == 2 || value == 5 || value == 6 || value == 7),
            r matches Ok(v) ==> v.spec_to_raw() == value,
            r matches Err(e) ==> e.source == value,
    {
        match value {
            0 => Ok(ToggleState::Running),
            1 => Ok(ToggleState::SrcCc1),
            2 => Ok(ToggleState::SrcCc2),
            5 => Ok(ToggleState::SnkCc1),
            6 => Ok(ToggleState::SnkCc2),
            7 => Ok(ToggleState::AudioAccessory),
            _ => Err(ConversionError { source: value }),
        }
    }
}


/// Coarse comparator reading of the measured CC line voltage.
#[derive(Clone, Copy, Debug, PartialEq, Eq, Hash, Structural)]
pub enum BcLvl {
    /// Below 200mV.
    LessThan200MV,
    /// Between 200mV and 660mV.
    Between200And660MV,
    /// Between 660mV and 1.23V.
    Between660And1230MV,
    /// Above 1.23V.
    GreaterThan1230MV,
}

impl BcLvl {
    /// The raw code of this value.
    pub open spec fn spec_to_raw(self) -> u8 {
        match self {
            BcLvl::LessThan200MV => 0,
            BcLvl::Between200And660MV => 1,
            BcLvl::Between660And1230MV => 2,
            BcLvl::GreaterThan1230MV => 3,
        }
    }

    /// Encodes this value as its raw field code.
    #[verifier::when_used_as_spec(spec_to_raw)]
    pub fn to_raw(self) -> (r: u8)
        ensures
            r == self.spec_to_raw(),
    {
        match self {
            BcLvl::LessThan200MV => 0,
            BcLvl::Between200And660MV => 1,
            BcLvl::Between660And1230MV => 2,
            BcLvl::GreaterThan1230MV => 3,
        }
    }

    /// Decoding of a raw field code; codes outside the defined set are
    /// rejected.
    pub open spec fn spec_try_from_raw(value: u8) -> Result<BcLvl, ConversionError> {
        match value {
            0 => Ok(BcLvl::LessThan200MV),
            1 => Ok(BcLvl::Between200And660MV),
            2 => Ok(BcLvl::Between660And1230MV),
            3 => Ok(BcLvl::GreaterThan1230MV),
            _ => Err(ConversionError { source: value }),
        }
    }

    /// Decodes a raw field code.  Exactly the codes of the defined set are
    /// accepted; any other value is an error carrying the offending code,
    /// never a default variant.
    #[verifier::when_used_as_spec(spec_try_from_raw)]
    pub fn try_from_raw(value: u8) -> (r: Result<BcLvl, ConversionError>)
        ensures
            r == BcLvl::spec_try_from_raw(value),
            r is Ok <==> (value == 0 || value == 1 || value == 2 || value == 3),
            r matches Ok(v) ==> v.spec_to_raw() == value,
            r matches Err(e) ==> e.source == value,
    {
        match value {
            0 => Ok(BcLvl::LessThan200MV),
            1 => Ok(BcLvl::Between200And660MV),
            2 => Ok(BcLvl::Between660And1230MV),
            3 => Ok(BcLvl::GreaterThan1230MV),
            _ => Err(ConversionError { source: value }),
        }
    }

    /// Total decoding of a field value already masked to the field's width;
    /// every in-range code is defined for this field.
    pub open spec fn spec_from_field(value: u8) -> BcLvl {
        match value {
            0 => BcLvl::LessThan200MV,
            1 => BcLvl::Between200And660MV,
            2 => BcLvl::Between660And1230MV,
            _ => BcLvl::GreaterThan1230MV,
        }
    }

    /// Decodes a field value already masked to the field's width.
    #[verifier::when_used_as_spec(spec_from_field)]
    pub fn from_field(value: u8) -> (r: BcLvl)
        ensures
            r == BcLvl::spec_from_field(value),
    {
        match value {
            0 => BcLvl::LessThan200MV,
            1 => BcLvl::Between200And660MV,
            2 => BcLvl::Between660And1230MV,
            _ => BcLvl::GreaterThan1230MV,
        }
    }
}


/// Known silicon revisions of the chip.
#[derive(Clone, Copy, Debug, PartialEq, Eq, Hash, Structural)]
pub enum Fusb302Version {
    /// Revision A silicon.
    VersionA,
    /// Revision B silicon.
    VersionB,
    /// Revision C silicon.
    VersionC,
}

impl Fusb302Version {
    /// The raw code of this value.
    pub open spec fn spec_to_raw(self) -> u8 {
        match self {
            Fusb302Version::VersionA => 8,
            Fusb302Version::VersionB => 9,
            Fusb302Version::VersionC => 10,
        }
    }

    /// Encodes this value as its raw field code.
    #[verifier::when_used_as_spec(spec_to_raw)]
    pub fn to_raw(self) -> (r: u8)
        ensures
            r == self.spec_to_raw(),
    {
        match self {
            Fusb302Version::VersionA => 8,
            Fusb302Version::VersionB => 9,
            Fusb302Version::VersionC => 10,
        }
    }

    /// Decoding of a raw field code; codes outside the defined set are
    /// rejected.
    pub open spec fn spec_try_from_raw(value: u8) -> Result<Fusb302Version, ConversionError> {
        match value {
            8 => Ok(Fusb302Version::VersionA),
            9 => Ok(Fusb302Version::VersionB),
            10 => Ok(Fusb302Version::VersionC),
            _ => Err(ConversionError { source: value }),
        }
    }

    /// Decodes a raw field code.  Exactly the codes of the defined set are
    /// accepted; any other value is an error carrying the offending code,
    /// never a default variant.
    #[verifier::when_used_as_spec(spec_try_from_raw)]
    pub fn try_from_raw(value: u8) -> (r: Result<Fusb302Version, ConversionError>)
        ensures
            r == Fusb302Version::spec_try_from_raw(value),
            r is Ok <==> (value == 8 || value == 9 || value == 10),
            r matches Ok(v) ==> v.spec_to_raw() == value,
            r matches Err(e) ==> e.source == value,
    {
        match value {
            8 => Ok(Fusb302Version::VersionA),
            9 => Ok(Fusb302Version::VersionB),
            10 => Ok(Fusb302Version::VersionC),
            _ => Err(ConversionError { source: value }),
        }
    }
}

} // verus!
