//! Bit-level helpers shared by all register field sets.
//!
//! Every register of the chip is a single byte; a field is a named sub-range
//! of its bits.  The spec functions here give the one authoritative meaning
//! of reading or updating such a sub-range, and every getter and setter of
//! the field-set types is specified against them.

use vstd::prelude::*;

verus! {

/// Error returned when a raw value does not belong to an enumerated field's
/// defined code set.
#[derive(Clone, Copy, Debug, PartialEq, Eq, Structural)]
pub struct ConversionError {
    /// The raw value that could not be decoded.
    pub source: u8,
}

/// Whether any bit selected by `mask` is set in `byte`.
pub open spec fn spec_bit(byte: u8, mask: u8) -> bool {
    byte & mask != 0
}

/// `byte` with the bits selected by `mask` forced on or off.
pub open spec fn spec_with_bit(byte: u8, mask: u8, on: bool) -> u8 {
    if on {
        byte | mask
    } else {
        byte & !mask
    }
}

/// The value of the multi-bit field of `byte` that starts at bit `shift`
/// and whose width is given by `mask` (already shifted down to bit 0).
pub open spec fn spec_field(byte: u8, shift: u8, mask: u8) -> u8 {
    (byte >> shift) & mask
}

/// `byte` with the multi-bit field at bit `shift` selected by `mask`
/// replaced by `value` (of which only the bits under `mask` are kept).
pub open spec fn spec_with_field(byte: u8, shift: u8, mask: u8, value: u8) -> u8 {
    (byte & !(mask << shift)) | ((value & mask) << shift)
}

} // verus!
