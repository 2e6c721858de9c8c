//! The fixed 16-byte frame header that precedes every message.

use crate::error::IpcError;
use crate::registry::IcmIpcMsgType;
use crate::wire::{
    lemma_i32_le_at, lemma_u16_le_at, lemma_u32_le_at, read_i32_le, read_u16_le, read_u32_le,
    spec_i32_at, spec_i32_le, spec_u16_at, spec_u16_le, spec_u32_at, spec_u32_le, write_i32_le,
    write_u16_le, write_u32_le,
};
use vstd::prelude::*;

verus! {

/// The frame envelope: `length` counts the whole frame, header included, so
/// `length == 16 + payload.len()` on every well-formed frame.  `flags` and
/// `sequence` are reserved and always zero on send; `num_fds` declares how
/// many out-of-band handles accompany the frame.
#[derive(Debug, Clone, Copy, PartialEq, Eq, Structural)]
pub struct IcmIpcHeader {
    pub length: u32,
    pub msg_type: u16,
    pub flags: u16,
    pub sequence: u32,
    pub num_fds: i32,
}

impl IcmIpcHeader {
    /// The header's 16-byte little-endian wire form.
    pub open spec fn spec_serialize(self) -> Seq<u8> {
        spec_u32_le(self.length) + spec_u16_le(self.msg_type) + spec_u16_le(self.flags)
            + spec_u32_le(self.sequence) + spec_i32_le(self.num_fds)
    }

    /// Build the header for a payload of `payload_size` bytes: total length
    /// `16 + payload_size`, reserved fields zero, no handles declared.
    pub fn new(msg_type: IcmIpcMsgType, payload_size: usize) -> (h: Self)
        requires
            payload_size + 16 <= u32::MAX,
        ensures
            h.length == 16 + payload_size,
            h.msg_type == msg_type.spec_id(),
            h.flags == 0,
            h.sequence == 0,
            h.num_fds == 0,
    {
        Self {
            length: 16 + payload_size as u32,
            msg_type: msg_type.id(),
            flags: 0,
            sequence: 0,
            num_fds: 0,
        }
    }

    /// Encode the header as its 16 wire bytes.
    pub fn serialize(&self) -> (r: Vec<u8>)
        ensures
            r@ == self.spec_serialize(),
            r@.len() == 16,
    {
        let mut buf: Vec<u8> = Vec::new();
        write_u32_le(&mut buf, self.length);
        write_u16_le(&mut buf, self.msg_type);
        write_u16_le(&mut buf, self.flags);
        write_u32_le(&mut buf, self.sequence);
        write_i32_le(&mut buf, self.num_fds);
        proof {
            assert(buf@ =~= self.spec_serialize());
        }
        buf
    }

    /// Decode a header from the first 16 bytes of `bytes`.  Fewer than 16
    /// available bytes is an end-of-stream condition, a transport fault
    /// rather than a protocol violation.
    pub fn deserialize(bytes: &[u8]) -> (r: Result<(Self, usize), IpcError>)
        ensures
            match r {
                Ok((h, n)) => {
                    &&& bytes@.len() >= 16
                    &&& n == 16
                    &&& h.length == spec_u32_at(bytes@, 0)
                    &&& h.msg_type == spec_u16_at(bytes@, 4)
                    &&& h.flags == spec_u16_at(bytes@, 6)
                    &&& h.sequence == spec_u32_at(bytes@, 8)
                    &&& h.num_fds == spec_i32_at(bytes@, 12)
                },
                Err(e) => bytes@.len() < 16 && e == IpcError::UnexpectedEnd,
            },
    {
        if bytes.len() < 16 {
            return Err(IpcError::UnexpectedEnd);
        }
        let h = Self {
            length: read_u32_le(bytes, 0),
            msg_type: read_u16_le(bytes, 4),
            flags: read_u16_le(bytes, 6),
            sequence: read_u32_le(bytes, 8),
            num_fds: read_i32_le(bytes, 12),
        };
        Ok((h, 16))
    }

    /// Round trip: a header whose fields satisfy the decoder's postcondition
    /// on `m`'s own encoding is `m` itself.
    pub proof fn lemma_roundtrip(m: Self, m2: Self)
        requires
            m2.length == spec_u32_at(m.spec_serialize(), 0),
            m2.msg_type == spec_u16_at(m.spec_serialize(), 4),
            m2.flags == spec_u16_at(m.spec_serialize(), 6),
            m2.sequence == spec_u32_at(m.spec_serialize(), 8),
            m2.num_fds == spec_i32_at(m.spec_serialize(), 12),
        ensures
            m2 == m,
    {
        let s = m.spec_serialize();
        lemma_u32_le_at(s, 0, m.length);
        lemma_u16_le_at(s, 4, m.msg_type);
        lemma_u16_le_at(s, 6, m.flags);
        lemma_u32_le_at(s, 8, m.sequence);
        lemma_i32_le_at(s, 12, m.num_fds);
    }
}

} // verus!
