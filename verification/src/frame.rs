//! PD frame wire format: frame assembly for transmit and header decoding
//! for receive.
//!
//! A transmit frame carries, in wire order: a four-token preamble (three
//! synchronization tokens and a fourth distinct one), a packet-symbol token
//! whose low bits hold the packet byte count (header plus data objects),
//! the payload bytes, and a four-token trailer (CRC, end of packet,
//! transmitter off, transmitter on).  The chip appends the CRC itself in
//! hardware.

use vstd::prelude::*;

use crate::tokens::{SOP1, SOP2, PACK_SYM, JAM_CRC, EOP, TX_OFF, TX_ON};

verus! {

/// The capacity of the scratch buffer a frame is assembled in before the
/// single FIFO write.
pub const TX_SCRATCH_CAPACITY: usize = 40;

/// The largest payload a frame can carry: the scratch buffer holds the
/// payload plus five leading and four trailing tokens.
pub const MAX_TX_PAYLOAD: usize = 31;

/// The wire bytes of the transmit frame for `data`: the preamble tokens,
/// the packet symbol carrying `2 + data.len()`, the payload, and the
/// CRC/EOP/TX-off/TX-on trailer.  Exactly `data.len() + 9` bytes.
pub open spec fn frame_bytes(data: Seq<u8>) -> Seq<u8> {
    seq![SOP1, SOP1, SOP1, SOP2, PACK_SYM | ((2 + data.len()) as u8)] + data + seq![
        JAM_CRC,
        EOP,
        TX_OFF,
        TX_ON,
    ]
}

/// Assembles the transmit frame for `data` in a fresh scratch buffer.
/// A payload larger than [`MAX_TX_PAYLOAD`] does not fit the scratch
/// buffer and is rejected.
pub fn build_frame(data: &[u8]) -> (r: Option<Vec<u8>>)
    ensures
        data@.len() > MAX_TX_PAYLOAD ==> r is None,
        data@.len() <= MAX_TX_PAYLOAD ==> (r matches Some(v) && v@ == frame_bytes(data@)
            && v@.len() == data@.len() + 9),
{
    if data.len() > MAX_TX_PAYLOAD {
        return None;
    }
    let count: u8 = (2 + data.len()) as u8;
    let mut frame: Vec<u8> = Vec::new();
    frame.push(SOP1);
    frame.push(SOP1);
    frame.push(SOP1);
    frame.push(SOP2);
    frame.push(PACK_SYM | count);
    frame.extend_from_slice(data);
    frame.push(JAM_CRC);
    frame.push(EOP);
    frame.push(TX_OFF);
    frame.push(TX_ON);
    proof {
        assert(frame@ =~= frame_bytes(data@));
    }
    Some(frame)
}

/// Law: the frame for a payload of length `L` is exactly `L + 9` bytes:
/// four preamble tokens, the packet symbol, the payload, and the four
/// trailer tokens.
pub proof fn lemma_frame_length(data: Seq<u8>)
    ensures
        frame_bytes(data).len() == data.len() + 9,
{
}

/// The number of 4-byte data objects declared by a received PD header,
/// given as its two wire bytes in little-endian order: bits 12 to 14 of
/// the 16-bit header value.
pub open spec fn spec_num_data_objects(header_low: u8, header_high: u8) -> u8 {
    (header_high >> 4) & 0x07
}

/// Decodes the number of 4-byte data objects from the two header bytes.
#[verifier::when_used_as_spec(spec_num_data_objects)]
pub fn num_data_objects(header_low: u8, header_high: u8) -> (n: u8)
    ensures
        n == spec_num_data_objects(header_low, header_high),
        n <= 7,
{
    let n = (header_high >> 4u8) & 0x07;
    proof {
        assert((header_high >> 4u8) & 0x07 <= 7) by (bit_vector);
    }
    n
}

/// The total message length declared by a received PD header: the two
/// header bytes plus four bytes for each declared data object.  At most 30.
pub open spec fn spec_total_message_len(header_low: u8, header_high: u8) -> int {
    2 + 4 * spec_num_data_objects(header_low, header_high)
}

/// Computes the total message length declared by the two header bytes.
pub fn total_message_len(header_low: u8, header_high: u8) -> (n: usize)
    ensures
        n == spec_total_message_len(header_low, header_high),
        2 <= n <= 30,
{
    2 + 4 * (num_data_objects(header_low, header_high) as usize)
}

} // verus!
