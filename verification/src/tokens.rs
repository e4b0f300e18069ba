//! The fixed token bytes of the PD frame wire format.

use vstd::prelude::*;

verus! {

/// First synchronization token of the preamble (sent three times).
pub const SOP1: u8 = 0x12;

/// Second synchronization token of the preamble (sent once).
pub const SOP2: u8 = 0x13;

/// Packet-symbol token; its low bits carry the packet byte count.
pub const PACK_SYM: u8 = 0x80;

/// Trailer token asking the chip to append the hardware-computed CRC.
pub const JAM_CRC: u8 = 0xFF;

/// End-of-packet token.
pub const EOP: u8 = 0x14;

/// Transmitter-off control token.
pub const TX_OFF: u8 = 0xFE;

/// Transmitter-on control token.
pub const TX_ON: u8 = 0xA1;

/// Mask isolating the bits that identify a Start-of-Packet family token.
pub const SOP_MASK: u8 = 0xE0;

/// The expected pattern after masking for any SOP*, SOP', or SOP'' token.
pub const SOP_PATTERN: u8 = 0xE0;

/// Whether a token byte read back from the receive FIFO belongs to the
/// Start-of-Packet token family.
pub open spec fn spec_sop_token(token: u8) -> bool {
    token & SOP_MASK == SOP_PATTERN
}

/// Checks a token byte read from the receive FIFO against the
/// Start-of-Packet pattern.
pub fn sop_token_valid(token: u8) -> (r: bool)
    ensures
        r == spec_sop_token(token),
{
    token & SOP_MASK == SOP_PATTERN
}

} // verus!
