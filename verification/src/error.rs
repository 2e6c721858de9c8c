//! Error taxonomy of the codec and the transport session.

use vstd::prelude::*;

verus! {

/// Why an encode, decode or session operation failed.
///
/// Transport faults proper (a failed read or write on the stream) live in the
/// unverified shell that owns the stream; the codec reports only what it can
/// observe in the bytes it was given.
#[derive(Clone, Copy, Debug, PartialEq, Eq, Structural)]
pub enum IpcError {
    /// Fewer bytes were available than the message's encoding requires.
    UnexpectedEnd,
    /// A null-terminated string field held bytes that are not valid UTF-8.
    InvalidUtf8,
    /// The frame header is inconsistent: `length < 16`, a declared handle
    /// count outside `0..=4`, or a payload length that does not fit the
    /// message type's expected size.
    FramingViolation,
    /// The header's `msg_type` is not a registered message id.
    UnknownMessageType,
    /// The session was closed before the operation.
    SessionClosed,
}

} // verus!
