//! The error taxonomy of the driver.

use vstd::prelude::*;

use crate::bus::BusError;

verus! {

/// Failures of the register and buffer access layers and of chip bring-up.
#[derive(Clone, Copy, Debug, PartialEq, Eq, Structural)]
pub enum FusbError {
    /// A bus-level failure, forwarded unchanged from the transport.
    I2c(BusError),
    /// The data length exceeds the internal staging buffer of a bus
    /// transaction.
    LenExceedsBuffer,
    /// The requested operation is not permitted by the register's access
    /// mode.
    NotSupported,
    /// The device identification register reported a silicon version
    /// outside the known set.
    UnknownDevice,
}

/// Failures of the transmit path, as reported to the protocol layer above.
#[derive(Clone, Copy, Debug, PartialEq, Eq, Structural)]
pub enum TxError {
    /// The message was discarded: a bus failure, a hardware retry failure,
    /// a collision, or a deadline expiry.  It may be retried by a higher
    /// protocol layer.
    Discarded,
    /// A hard reset was signalled on the line; the caller must renegotiate.
    HardReset,
}

/// Failures of the receive path, as reported to the protocol layer above.
#[derive(Clone, Copy, Debug, PartialEq, Eq, Structural)]
pub enum RxError {
    /// No valid message was obtained: a bus failure, an invalid token, an
    /// oversized message, or a deadline expiry.
    Discarded,
    /// A hard reset was signalled on the line; the caller must renegotiate.
    HardReset,
}

} // verus!
