//! The failures a device interaction can end in.

use vstd::prelude::*;

verus! {

/// Why an operation against a device was abandoned.
#[derive(Clone, Copy, Debug, PartialEq, Eq, Structural)]
pub enum ProtocolError {
    /// The TCP connection could not be opened: refused, unreachable or timed out.
    ConnectError,
    /// The device answered the connect request with something other than an
    /// acknowledgement, or with less than a header.
    HandshakeFailed,
    /// Fewer bytes than a frame header were available.
    MalformedFrame,
    /// A read or a write failed in the middle of a session.
    IoError,
    /// The device answered a request with an explicit error acknowledgement.
    DeviceError,
}

} // verus!
