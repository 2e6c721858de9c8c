//! The transport session: a two-state machine over one connection.
//!
//! The session itself performs no I/O; it owns the protocol-side decisions.
//! The unverified shell that holds the stream asks it to frame an outgoing
//! message, to turn a received header into the number of payload bytes to
//! read, and reports transport faults back to it, which close the session
//! for good.

use crate::error::IpcError;
use crate::header::IcmIpcHeader;
use crate::registry::IcmIpcMsgType;
use crate::wire::{spec_u32_at, spec_u32_le};
use vstd::prelude::*;

verus! {

/// The two states of a session.  Any transport fault, and `close`, move it to
/// `Closed`; nothing moves it back.
#[derive(Debug, Clone, Copy, PartialEq, Eq, Structural)]
pub enum SessionState {
    Connected,
    Closed,
}

/// One live connection.  The protocol is stateless on the wire, so the
/// session tracks nothing beyond whether the connection still stands.
#[derive(Debug, Clone, Copy, PartialEq, Eq, Structural)]
pub struct Session {
    pub state: SessionState,
}

/// The full frame for one outgoing message: the 16-byte header for a payload
/// of this size — total length `16 + payload.len()`, reserved fields zero,
/// no handles declared — followed by the payload itself.
pub open spec fn spec_frame(msg_type: IcmIpcMsgType, payload: Seq<u8>) -> Seq<u8> {
    let h = IcmIpcHeader {
        length: (16 + payload.len()) as u32,
        msg_type: msg_type.spec_id(),
        flags: 0,
        sequence: 0,
        num_fds: 0,
    };
    h.spec_serialize() + payload
}

impl Session {
    /// Whether the connection still stands.
    pub open spec fn is_connected(self) -> bool {
        self.state == SessionState::Connected
    }

    /// A fresh session over a connection that just opened.
    pub fn new() -> (s: Session)
        ensures
            s.is_connected(),
    {
        Session { state: SessionState::Connected }
    }

    /// Whether the connection still stands.
    pub fn is_open(&self) -> (r: bool)
        ensures
            r == self.is_connected(),
    {
        match self.state {
            SessionState::Connected => true,
            SessionState::Closed => false,
        }
    }

    /// Release the session.  Later sends and receives fail with
    /// `SessionClosed`.
    pub fn close(&mut self)
        ensures
            !final(self).is_connected(),
    {
        self.state = SessionState::Closed;
    }

    /// Record that the transport failed: a failed read or write, or an
    /// end-of-stream mid-frame, is fatal to the session.
    pub fn note_transport_fault(&mut self)
        ensures
            !final(self).is_connected(),
    {
        self.state = SessionState::Closed;
    }

    /// Frame one outgoing message: the header for this payload size followed
    /// by the payload, to be written to the stream as one unit.
    pub fn frame_message(&self, msg_type: IcmIpcMsgType, payload: &[u8]) -> (r: Result<
        Vec<u8>,
        IpcError,
    >)
        requires
            payload@.len() + 16 <= u32::MAX,
        ensures
            self.is_connected() ==> r is Ok && r.unwrap()@ == spec_frame(msg_type, payload@),
            !self.is_connected() ==> r == Err::<Vec<u8>, IpcError>(IpcError::SessionClosed),
    {
        if !self.is_open() {
            return Err(IpcError::SessionClosed);
        }
        let header = IcmIpcHeader::new(msg_type, payload.len());
        let mut frame = header.serialize();
        crate::wire::write_bytes(&mut frame, payload);
        Ok(frame)
    }

    /// Turn a received header into the number of payload bytes to read.  A
    /// declared total length under 16 cannot even cover the header: a
    /// framing violation, after which the stream's alignment cannot be
    /// trusted.
    pub fn payload_len(&self, header: &IcmIpcHeader) -> (r: Result<u32, IpcError>)
        ensures
            !self.is_connected() ==> r == Err::<u32, IpcError>(IpcError::SessionClosed),
            self.is_connected() && header.length < 16 ==> r == Err::<u32, IpcError>(
                IpcError::FramingViolation,
            ),
            self.is_connected() && header.length >= 16 ==> r == Ok::<u32, IpcError>(
                (header.length - 16) as u32,
            ),
    {
        if !self.is_open() {
            return Err(IpcError::SessionClosed);
        }
        if header.length < 16 {
            return Err(IpcError::FramingViolation);
        }
        Ok(header.length - 16)
    }
}

/// Header invariant of every frame the session sends: the `length` word at
/// the front of the frame always reads back as `16 + payload.len()`.
pub proof fn lemma_frame_header_length(msg_type: IcmIpcMsgType, payload: Seq<u8>)
    requires
        payload.len() + 16 <= u32::MAX,
    ensures
        spec_frame(msg_type, payload).len() == 16 + payload.len(),
        spec_u32_at(spec_frame(msg_type, payload), 0) == 16 + payload.len(),
{
    let h = IcmIpcHeader {
        length: (16 + payload.len()) as u32,
        msg_type: msg_type.spec_id(),
        flags: 0,
        sequence: 0,
        num_fds: 0,
    };
    let fr = spec_frame(msg_type, payload);
    assert(fr == h.spec_serialize() + payload);
    assert(h.spec_serialize().len() == 16);
    assert(fr[0] == h.spec_serialize()[0]);
    assert(fr[1] == h.spec_serialize()[1]);
    assert(fr[2] == h.spec_serialize()[2]);
    assert(fr[3] == h.spec_serialize()[3]);
    assert(h.spec_serialize()[0] == spec_u32_le(h.length)[0]);
    assert(h.spec_serialize()[1] == spec_u32_le(h.length)[1]);
    assert(h.spec_serialize()[2] == spec_u32_le(h.length)[2]);
    assert(h.spec_serialize()[3] == spec_u32_le(h.length)[3]);
    crate::wire::lemma_u32_le_at(fr, 0, h.length);
}

} // verus!
