//! Session-level control messages.

use crate::error::IpcError;
use crate::registry::{spec_payload_len_ok, IcmIpcMsgType};
use crate::utf8::{is_utf8, spec_is_utf8};
use crate::wire::{
    lemma_u32_le_at, read_byte, read_bytes, read_u32_le, spec_u32_at, spec_u32_le, write_byte,
    write_bytes, write_u32_le,
};
use vstd::prelude::*;

verus! {

/// Compositor event: the compositor is shutting down.  Carries no payload.
#[derive(Debug, Clone, Copy, PartialEq, Eq, Structural)]
pub struct IcmMsgCompositorShutdown;

impl IcmMsgCompositorShutdown {
    /// The payload's wire form: empty.
    pub open spec fn spec_serialize(self) -> Seq<u8> {
        Seq::empty()
    }

    /// Encode the payload: no bytes.
    pub fn serialize(&self) -> (r: Vec<u8>)
        ensures
            r@ == self.spec_serialize(),
            r@.len() == 0,
    {
        Vec::new()
    }

    /// Decode the payload: consumes no bytes and cannot fail.
    pub fn deserialize(_bytes: &[u8]) -> (r: Result<(Self, usize), IpcError>)
        ensures
            r == Ok::<(IcmMsgCompositorShutdown, usize), IpcError>((IcmMsgCompositorShutdown, 0)),
    {
        Ok((IcmMsgCompositorShutdown, 0))
    }
}

/// Ask the compositor to launch an application.  The command is written as a
/// redundant `u32` length (string bytes plus terminator), then the string's
/// raw UTF-8 bytes, then a single terminating zero byte.
#[derive(Debug, Clone, PartialEq, Eq)]
pub struct IcmMsgLaunchApp {
    pub command: Vec<u8>,
}

impl IcmMsgLaunchApp {
    /// The payload's wire form: `5 + command.len()` bytes.
    pub open spec fn spec_serialize(self) -> Seq<u8> {
        spec_u32_le((self.command@.len() + 1) as u32) + self.command@ + seq![0u8]
    }

    /// The decoder's reading of a payload in `s`: the declared byte count
    /// covers the string and its terminator, and the terminator is in place.
    pub open spec fn spec_matches(self, s: Seq<u8>) -> bool {
        let c = spec_u32_at(s, 0) as int;
        &&& c >= 1
        &&& s.len() >= 4 + c
        &&& s[4 + c - 1] == 0
        &&& self.command@ == s.subrange(4, 4 + c - 1)
    }

    /// Encode the payload.
    pub fn serialize(&self) -> (r: Vec<u8>)
        requires
            self.command@.len() + 1 <= u32::MAX,
        ensures
            r@ == self.spec_serialize(),
            r@.len() == 5 + self.command@.len(),
    {
        let mut buf: Vec<u8> = Vec::new();
        write_u32_le(&mut buf, (self.command.len() + 1) as u32);
        write_bytes(&mut buf, self.command.as_slice());
        write_byte(&mut buf, 0);
        proof {
            assert(buf@ =~= self.spec_serialize());
        }
        buf
    }

    /// Decode a payload from `bytes`: the count, then `count - 1` string
    /// bytes that must form valid UTF-8, then the zero terminator.
    pub fn deserialize(bytes: &[u8]) -> (r: Result<(Self, usize), IpcError>)
        ensures
            match r {
                Ok((m, n)) => {
                    &&& m.spec_matches(bytes@)
                    &&& spec_is_utf8(m.command@)
                    &&& n == 4 + spec_u32_at(bytes@, 0)
                },
                Err(e) => {
                    ||| (bytes@.len() < 4 && e == IpcError::UnexpectedEnd)
                    ||| (bytes@.len() >= 4 && spec_u32_at(bytes@, 0) == 0 && e
                        == IpcError::FramingViolation)
                    ||| (bytes@.len() >= 4 && spec_u32_at(bytes@, 0) >= 1 && bytes@.len() < 4
                        + spec_u32_at(bytes@, 0) && e == IpcError::UnexpectedEnd)
                    ||| (bytes@.len() >= 4 + spec_u32_at(bytes@, 0) && spec_u32_at(bytes@, 0)
                        >= 1 && bytes@[4 + spec_u32_at(bytes@, 0) - 1] != 0 && e
                        == IpcError::FramingViolation)
                    ||| (bytes@.len() >= 4 + spec_u32_at(bytes@, 0) && spec_u32_at(bytes@, 0)
                        >= 1 && !spec_is_utf8(
                        bytes@.subrange(4, 4 + spec_u32_at(bytes@, 0) - 1),
                    ) && e == IpcError::InvalidUtf8)
                },
            },
    {
        if bytes.len() < 4 {
            return Err(IpcError::UnexpectedEnd);
        }
        let count = read_u32_le(bytes, 0) as usize;
        if count == 0 {
            return Err(IpcError::FramingViolation);
        }
        if bytes.len() - 4 < count {
            return Err(IpcError::UnexpectedEnd);
        }
        if read_byte(bytes, 4 + count - 1) != 0 {
            return Err(IpcError::FramingViolation);
        }
        let command = read_bytes(bytes, 4, count - 1);
        if !is_utf8(command.as_slice()) {
            return Err(IpcError::InvalidUtf8);
        }
        Ok((Self { command }, 4 + count))
    }

    /// Round trip: a value that matches the decoder's reading of `m`'s own
    /// encoding carries the same command bytes.
    pub proof fn lemma_roundtrip(m: Self, m2: Self)
        requires
            m.command@.len() + 1 <= u32::MAX,
            m2.spec_matches(m.spec_serialize()),
        ensures
            m2.command@ == m.command@,
    {
        let s = m.spec_serialize();
        let cl = m.command@.len() as int;
        let p0 = spec_u32_le((m.command@.len() + 1) as u32);
        assert(s == p0 + m.command@ + seq![0u8]);
        assert(s.len() == cl + 5);
        assert(s[0] == p0[0]);
        assert(s[1] == p0[1]);
        assert(s[2] == p0[2]);
        assert(s[3] == p0[3]);
        lemma_u32_le_at(s, 0, (m.command@.len() + 1) as u32);
        assert(spec_u32_at(s, 0) == cl + 1);
        assert forall|j: int| 0 <= j < cl implies s[4 + j] == m.command@[j] by {
            assert((p0 + m.command@ + seq![0u8])[4 + j] == m.command@[j]);
        }
        assert(s.subrange(4, 4 + cl) =~= m.command@);
    }
}

/// The registry's size table agrees with these codecs: every encoded
/// payload satisfies the length rule registered for its message type.
pub proof fn lemma_sizes_match_registry(
    compositor_shutdown: IcmMsgCompositorShutdown,
    launch_app: IcmMsgLaunchApp,
)
    ensures
        spec_payload_len_ok(
            IcmIpcMsgType::CompositorShutdown.spec_payload_shape(),
            compositor_shutdown.spec_serialize().len() as int,
        ),
        spec_payload_len_ok(
            IcmIpcMsgType::LaunchApp.spec_payload_shape(),
            launch_app.spec_serialize().len() as int,
        ),
{
}

} // verus!
