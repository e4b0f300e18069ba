//! Register-level driver and minimal USB Power Delivery physical-layer
//! transport for the FUSB302B Type-C controller, accessed over a two-wire bus.
//!
//! The crate models the chip's registers as typed, bit-field-accurate field
//! sets, provides an access layer that enforces each register's access mode,
//! and implements chip bring-up (reset, power-up, CC-pin detection) together
//! with a PD frame transmit/receive path over the chip's FIFO.
//!
//! Every bus interaction is recorded in a ghost transaction log, and the
//! contracts of the driver operations are stated as relations between that
//! log and the returned result.

use vstd::prelude::*;

pub mod tokens;
pub mod fields;
pub mod enums;
pub mod field_sets;
pub mod bus;
pub mod error;
pub mod interface;
pub mod device;
pub mod frame;
pub mod driver;
pub mod sim;

pub use driver::{CcPin, Fusb302b};
pub use error::{FusbError, RxError, TxError};

verus! {

/// The fixed 7-bit two-wire bus address of the FUSB302B.
pub const FUSB302B_I2C_ADDRESS: u8 = 0x22;

} // verus!
