//! The ways in which decoding and an exchange can fail.

use vstd::prelude::*;

verus! {

/// Why a byte sequence is not a message of the protocol.
#[derive(Debug, Clone, Copy, PartialEq, Eq, Structural)]
pub enum DecodeError {
    /// The leading byte is not the tag of any variant.
    UnknownTag,
    /// The bytes end before the payload that the tag announces is complete;
    /// an empty sequence, which has no tag at all, counts as truncated too.
    Truncated,
}

/// Why no reply came out of waiting for one.
#[derive(Debug, Clone, Copy, PartialEq, Eq, Structural)]
pub enum ReceiveError {
    /// Receiving on the socket failed.
    Io,
    /// A datagram arrived that is no reply of the protocol.
    Decode(DecodeError),
}

/// Why an exchange with the device ended without success.
#[derive(Debug, Clone, Copy, PartialEq, Eq, Structural)]
pub enum SessionError {
    /// The command could not be transmitted.
    Send,
    /// Waiting for a reply failed.
    Receive(ReceiveError),
    /// The exchange was told of something it was not waiting for.
    OutOfTurn,
}

} // verus!
