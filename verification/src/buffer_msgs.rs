//! Pixel buffer and image transfer messages.

use crate::error::IpcError;
use crate::registry::{spec_payload_len_ok, IcmIpcMsgType};
use crate::wire::{
    lemma_u32_le_at, read_bytes, read_u32_le, spec_u32_at, spec_u32_le, write_bytes,
    write_u32_le,
};
use vstd::prelude::*;

verus! {

/// Create a pixel buffer.
#[derive(Debug, Clone, Copy, PartialEq, Eq, Structural)]
pub struct IcmMsgCreateBuffer {
    pub buffer_id: u32,
    pub width: u32,
    pub height: u32,
    pub format: u32,
    pub usage_flags: u32,
}

impl IcmMsgCreateBuffer {
    /// The payload's wire form: 20 bytes.
    pub open spec fn spec_serialize(self) -> Seq<u8> {
        spec_u32_le(self.buffer_id) + spec_u32_le(self.width) + spec_u32_le(self.height) + spec_u32_le(self.format) + spec_u32_le(self.usage_flags)
    }

    /// The decoder's reading of a payload held at offset `o` of `s`.
    pub open spec fn spec_matches(self, s: Seq<u8>, o: int) -> bool {
        &&& self.buffer_id == spec_u32_at(s, o)
        &&& self.width == spec_u32_at(s, o + 4)
        &&& self.height == spec_u32_at(s, o + 8)
        &&& self.format == spec_u32_at(s, o + 12)
        &&& self.usage_flags == spec_u32_at(s, o + 16)
    }

    /// Encode the payload.
    pub fn serialize(&self) -> (r: Vec<u8>)
        ensures
            r@ == self.spec_serialize(),
            r@.len() == 20,
    {
        let mut buf: Vec<u8> = Vec::new();
        write_u32_le(&mut buf, self.buffer_id);
        write_u32_le(&mut buf, self.width);
        write_u32_le(&mut buf, self.height);
        write_u32_le(&mut buf, self.format);
        write_u32_le(&mut buf, self.usage_flags);
        proof {
            assert(buf@ =~= self.spec_serialize());
        }
        buf
    }

    /// Decode a payload from the first 20 bytes of `bytes`.
    pub fn deserialize(bytes: &[u8]) -> (r: Result<(Self, usize), IpcError>)
        ensures
            match r {
                Ok((m, n)) => bytes@.len() >= 20 && n == 20 && m.spec_matches(bytes@, 0),
                Err(e) => bytes@.len() < 20 && e == IpcError::UnexpectedEnd,
            },
    {
        if bytes.len() < 20 {
            return Err(IpcError::UnexpectedEnd);
        }
        let m = Self {
            buffer_id: read_u32_le(bytes, 0),
            width: read_u32_le(bytes, 4),
            height: read_u32_le(bytes, 8),
            format: read_u32_le(bytes, 12),
            usage_flags: read_u32_le(bytes, 16),
        };
        Ok((m, 20))
    }

    /// Round trip at an offset: if the bytes at `o` are `m`'s encoding,
    /// a value that matches the decoder's reading there agrees with `m`.
    pub proof fn lemma_roundtrip_at(m: Self, m2: Self, s: Seq<u8>, o: int)
        requires
            0 <= o,
            o + 20 <= s.len(),
            s.subrange(o, o + 20) == m.spec_serialize(),
            m2.spec_matches(s, o),
        ensures
            m2 == m,
    {
        let ser = m.spec_serialize();
        let sub = s.subrange(o, o + 20);
        assert(ser.len() == 20);
        assert(s[o] == sub[0] && sub[0] == ser[0]);
        assert(s[o + 1] == sub[1] && sub[1] == ser[1]);
        assert(s[o + 2] == sub[2] && sub[2] == ser[2]);
        assert(s[o + 3] == sub[3] && sub[3] == ser[3]);
        lemma_u32_le_at(s, o, m.buffer_id);
        assert(s[o + 4] == sub[4] && sub[4] == ser[4]);
        assert(s[o + 5] == sub[5] && sub[5] == ser[5]);
        assert(s[o + 6] == sub[6] && sub[6] == ser[6]);
        assert(s[o + 7] == sub[7] && sub[7] == ser[7]);
        lemma_u32_le_at(s, o + 4, m.width);
        assert(s[o + 8] == sub[8] && sub[8] == ser[8]);
        assert(s[o + 9] == sub[9] && sub[9] == ser[9]);
        assert(s[o + 10] == sub[10] && sub[10] == ser[10]);
        assert(s[o + 11] == sub[11] && sub[11] == ser[11]);
        lemma_u32_le_at(s, o + 8, m.height);
        assert(s[o + 12] == sub[12] && sub[12] == ser[12]);
        assert(s[o + 13] == sub[13] && sub[13] == ser[13]);
        assert(s[o + 14] == sub[14] && sub[14] == ser[14]);
        assert(s[o + 15] == sub[15] && sub[15] == ser[15]);
        lemma_u32_le_at(s, o + 12, m.format);
        assert(s[o + 16] == sub[16] && sub[16] == ser[16]);
        assert(s[o + 17] == sub[17] && sub[17] == ser[17]);
        assert(s[o + 18] == sub[18] && sub[18] == ser[18]);
        assert(s[o + 19] == sub[19] && sub[19] == ser[19]);
        lemma_u32_le_at(s, o + 16, m.usage_flags);
    }

    /// Round trip: a value that matches the decoder's reading of `m`'s
    /// own encoding is `m` itself.
    pub proof fn lemma_roundtrip(m: Self, m2: Self)
        requires
            m2.spec_matches(m.spec_serialize(), 0),
        ensures
            m2 == m,
    {
        assert(m.spec_serialize().subrange(0, 20) =~= m.spec_serialize());
        Self::lemma_roundtrip_at(m, m2, m.spec_serialize(), 0);
    }
}

/// Destroy a pixel buffer.
#[derive(Debug, Clone, Copy, PartialEq, Eq, Structural)]
pub struct IcmMsgDestroyBuffer {
    pub buffer_id: u32,
}

impl IcmMsgDestroyBuffer {
    /// The payload's wire form: 4 bytes.
    pub open spec fn spec_serialize(self) -> Seq<u8> {
        spec_u32_le(self.buffer_id)
    }

    /// The decoder's reading of a payload held at offset `o` of `s`.
    pub open spec fn spec_matches(self, s: Seq<u8>, o: int) -> bool {
        &&& self.buffer_id == spec_u32_at(s, o)
    }

    /// Encode the payload.
    pub fn serialize(&self) -> (r: Vec<u8>)
        ensures
            r@ == self.spec_serialize(),
            r@.len() == 4,
    {
        let mut buf: Vec<u8> = Vec::new();
        write_u32_le(&mut buf, self.buffer_id);
        proof {
            assert(buf@ =~= self.spec_serialize());
        }
        buf
    }

    /// Decode a payload from the first 4 bytes of `bytes`.
    pub fn deserialize(bytes: &[u8]) -> (r: Result<(Self, usize), IpcError>)
        ensures
            match r {
                Ok((m, n)) => bytes@.len() >= 4 && n == 4 && m.spec_matches(bytes@, 0),
                Err(e) => bytes@.len() < 4 && e == IpcError::UnexpectedEnd,
            },
    {
        if bytes.len() < 4 {
            return Err(IpcError::UnexpectedEnd);
        }
        let m = Self {
            buffer_id: read_u32_le(bytes, 0),
        };
        Ok((m, 4))
    }

    /// Round trip at an offset: if the bytes at `o` are `m`'s encoding,
    /// a value that matches the decoder's reading there agrees with `m`.
    pub proof fn lemma_roundtrip_at(m: Self, m2: Self, s: Seq<u8>, o: int)
        requires
            0 <= o,
            o + 4 <= s.len(),
            s.subrange(o, o + 4) == m.spec_serialize(),
            m2.spec_matches(s, o),
        ensures
            m2 == m,
    {
        let ser = m.spec_serialize();
        let sub = s.subrange(o, o + 4);
        assert(ser.len() == 4);
        assert(s[o] == sub[0] && sub[0] == ser[0]);
        assert(s[o + 1] == sub[1] && sub[1] == ser[1]);
        assert(s[o + 2] == sub[2] && sub[2] == ser[2]);
        assert(s[o + 3] == sub[3] && sub[3] == ser[3]);
        lemma_u32_le_at(s, o, m.buffer_id);
    }

    /// Round trip: a value that matches the decoder's reading of `m`'s
    /// own encoding is `m` itself.
    pub proof fn lemma_roundtrip(m: Self, m2: Self)
        requires
            m2.spec_matches(m.spec_serialize(), 0),
        ensures
            m2 == m,
    {
        assert(m.spec_serialize().subrange(0, 4) =~= m.spec_serialize());
        Self::lemma_roundtrip_at(m, m2, m.spec_serialize(), 0);
    }
}

/// Upload raw image bytes under an image id.
#[derive(Debug, Clone, PartialEq, Eq)]
pub struct IcmMsgUploadImage {
    pub image_id: u32,
    pub width: u32,
    pub height: u32,
    pub format: u32,
    pub data: Vec<u8>,
}

impl IcmMsgUploadImage {
    /// The payload's wire form: 16 fixed bytes, a `u32` byte count, then
    /// that many raw bytes.
    pub open spec fn spec_serialize(self) -> Seq<u8> {
        spec_u32_le(self.image_id) + spec_u32_le(self.width) + spec_u32_le(self.height) + spec_u32_le(self.format) + spec_u32_le(self.data@.len() as u32) + self.data@
    }

    /// The decoder's reading of a payload in `s`: fixed fields at their
    /// offsets, then exactly as many raw bytes as the count declares.
    pub open spec fn spec_matches(self, s: Seq<u8>) -> bool {
        &&& self.image_id == spec_u32_at(s, 0)
        &&& self.width == spec_u32_at(s, 4)
        &&& self.height == spec_u32_at(s, 8)
        &&& self.format == spec_u32_at(s, 12)
        &&& self.data@ == s.subrange(20, 20 + spec_u32_at(s, 16))
    }

    /// Encode the payload.
    pub fn serialize(&self) -> (r: Vec<u8>)
        requires
            self.data@.len() <= u32::MAX,
        ensures
            r@ == self.spec_serialize(),
            r@.len() == 20 + self.data@.len(),
    {
        let mut buf: Vec<u8> = Vec::new();
        write_u32_le(&mut buf, self.image_id);
        write_u32_le(&mut buf, self.width);
        write_u32_le(&mut buf, self.height);
        write_u32_le(&mut buf, self.format);
        write_u32_le(&mut buf, self.data.len() as u32);
        write_bytes(&mut buf, self.data.as_slice());
        proof {
            assert(buf@ =~= self.spec_serialize());
        }
        buf
    }

    /// Decode a payload from `bytes`: the fixed fields, the count, then
    /// exactly `count` raw bytes, failing if fewer are available.
    pub fn deserialize(bytes: &[u8]) -> (r: Result<(Self, usize), IpcError>)
        ensures
            match r {
                Ok((m, n)) => {
                    &&& bytes@.len() >= 20 + spec_u32_at(bytes@, 16)
                    &&& m.spec_matches(bytes@)
                    &&& n == 20 + spec_u32_at(bytes@, 16)
                },
                Err(e) => {
                    &&& e == IpcError::UnexpectedEnd
                    &&& (bytes@.len() < 20 || bytes@.len() < 20 + spec_u32_at(
                        bytes@,
                        16,
                    ))
                },
            },
    {
        if bytes.len() < 20 {
            return Err(IpcError::UnexpectedEnd);
        }
        let count = read_u32_le(bytes, 16) as usize;
        if bytes.len() - 20 < count {
            return Err(IpcError::UnexpectedEnd);
        }
        let m = Self {
            image_id: read_u32_le(bytes, 0),
            width: read_u32_le(bytes, 4),
            height: read_u32_le(bytes, 8),
            format: read_u32_le(bytes, 12),
            data: read_bytes(bytes, 20, count),
        };
        Ok((m, 20 + count))
    }

    /// Round trip: a value that matches the decoder's reading of `m`'s own
    /// encoding agrees with `m`.
    pub proof fn lemma_roundtrip(m: Self, m2: Self)
        requires
            m.data@.len() <= u32::MAX,
            m2.spec_matches(m.spec_serialize()),
        ensures
            m2.image_id == m.image_id,
            m2.width == m.width,
            m2.height == m.height,
            m2.format == m.format,
            m2.data@ == m.data@,
    {
        let s = m.spec_serialize();
        let p0 = spec_u32_le(m.image_id);
        let p1 = spec_u32_le(m.width);
        let p2 = spec_u32_le(m.height);
        let p3 = spec_u32_le(m.format);
        let p4 = spec_u32_le(m.data@.len() as u32);
        assert(s == p0 + p1 + p2 + p3 + p4 + m.data@);
        let dl = m.data@.len() as int;
        assert(s.len() == 20 + dl);
        assert(s[0] == p0[0]);
        assert(s[1] == p0[1]);
        assert(s[2] == p0[2]);
        assert(s[3] == p0[3]);
        lemma_u32_le_at(s, 0, m.image_id);
        assert(s[4] == p1[0]);
        assert(s[5] == p1[1]);
        assert(s[6] == p1[2]);
        assert(s[7] == p1[3]);
        lemma_u32_le_at(s, 4, m.width);
        assert(s[8] == p2[0]);
        assert(s[9] == p2[1]);
        assert(s[10] == p2[2]);
        assert(s[11] == p2[3]);
        lemma_u32_le_at(s, 8, m.height);
        assert(s[12] == p3[0]);
        assert(s[13] == p3[1]);
        assert(s[14] == p3[2]);
        assert(s[15] == p3[3]);
        lemma_u32_le_at(s, 12, m.format);
        assert(s[16] == p4[0]);
        assert(s[17] == p4[1]);
        assert(s[18] == p4[2]);
        assert(s[19] == p4[3]);
        lemma_u32_le_at(s, 16, m.data@.len() as u32);
        assert(m.data@.len() as u32 == dl);
        assert(spec_u32_at(s, 16) == dl);
        assert forall|j: int| 0 <= j < dl implies s[20 + j] == m.data@[j] by {
            assert((p0 + p1 + p2 + p3 + p4 + m.data@)[20 + j] == m.data@[j]);
        }
        assert(s.subrange(20, 20 + dl) =~= m.data@);
    }
}

/// Destroy an uploaded image.
#[derive(Debug, Clone, Copy, PartialEq, Eq, Structural)]
pub struct IcmMsgDestroyImage {
    pub image_id: u32,
}

impl IcmMsgDestroyImage {
    /// The payload's wire form: 4 bytes.
    pub open spec fn spec_serialize(self) -> Seq<u8> {
        spec_u32_le(self.image_id)
    }

    /// The decoder's reading of a payload held at offset `o` of `s`.
    pub open spec fn spec_matches(self, s: Seq<u8>, o: int) -> bool {
        &&& self.image_id == spec_u32_at(s, o)
    }

    /// Encode the payload.
    pub fn serialize(&self) -> (r: Vec<u8>)
        ensures
            r@ == self.spec_serialize(),
            r@.len() == 4,
    {
        let mut buf: Vec<u8> = Vec::new();
        write_u32_le(&mut buf, self.image_id);
        proof {
            assert(buf@ =~= self.spec_serialize());
        }
        buf
    }

    /// Decode a payload from the first 4 bytes of `bytes`.
    pub fn deserialize(bytes: &[u8]) -> (r: Result<(Self, usize), IpcError>)
        ensures
            match r {
                Ok((m, n)) => bytes@.len() >= 4 && n == 4 && m.spec_matches(bytes@, 0),
                Err(e) => bytes@.len() < 4 && e == IpcError::UnexpectedEnd,
            },
    {
        if bytes.len() < 4 {
            return Err(IpcError::UnexpectedEnd);
        }
        let m = Self {
            image_id: read_u32_le(bytes, 0),
        };
        Ok((m, 4))
    }

    /// Round trip at an offset: if the bytes at `o` are `m`'s encoding,
    /// a value that matches the decoder's reading there agrees with `m`.
    pub proof fn lemma_roundtrip_at(m: Self, m2: Self, s: Seq<u8>, o: int)
        requires
            0 <= o,
            o + 4 <= s.len(),
            s.subrange(o, o + 4) == m.spec_serialize(),
            m2.spec_matches(s, o),
        ensures
            m2 == m,
    {
        let ser = m.spec_serialize();
        let sub = s.subrange(o, o + 4);
        assert(ser.len() == 4);
        assert(s[o] == sub[0] && sub[0] == ser[0]);
        assert(s[o + 1] == sub[1] && sub[1] == ser[1]);
        assert(s[o + 2] == sub[2] && sub[2] == ser[2]);
        assert(s[o + 3] == sub[3] && sub[3] == ser[3]);
        lemma_u32_le_at(s, o, m.image_id);
    }

    /// Round trip: a value that matches the decoder's reading of `m`'s
    /// own encoding is `m` itself.
    pub proof fn lemma_roundtrip(m: Self, m2: Self)
        requires
            m2.spec_matches(m.spec_serialize(), 0),
        ensures
            m2 == m,
    {
        assert(m.spec_serialize().subrange(0, 4) =~= m.spec_serialize());
        Self::lemma_roundtrip_at(m, m2, m.spec_serialize(), 0);
    }
}

/// Ask the compositor for a copy of a screen region.
#[derive(Debug, Clone, Copy, PartialEq, Eq, Structural)]
pub struct IcmMsgRequestScreenCopy {
    pub request_id: u32,
    pub x: u32,
    pub y: u32,
    pub width: u32,
    pub height: u32,
}

impl IcmMsgRequestScreenCopy {
    /// The payload's wire form: 20 bytes.
    pub open spec fn spec_serialize(self) -> Seq<u8> {
        spec_u32_le(self.request_id) + spec_u32_le(self.x) + spec_u32_le(self.y) + spec_u32_le(self.width) + spec_u32_le(self.height)
    }

    /// The decoder's reading of a payload held at offset `o` of `s`.
    pub open spec fn spec_matches(self, s: Seq<u8>, o: int) -> bool {
        &&& self.request_id == spec_u32_at(s, o)
        &&& self.x == spec_u32_at(s, o + 4)
        &&& self.y == spec_u32_at(s, o + 8)
        &&& self.width == spec_u32_at(s, o + 12)
        &&& self.height == spec_u32_at(s, o + 16)
    }

    /// Encode the payload.
    pub fn serialize(&self) -> (r: Vec<u8>)
        ensures
            r@ == self.spec_serialize(),
            r@.len() == 20,
    {
        let mut buf: Vec<u8> = Vec::new();
        write_u32_le(&mut buf, self.request_id);
        write_u32_le(&mut buf, self.x);
        write_u32_le(&mut buf, self.y);
        write_u32_le(&mut buf, self.width);
        write_u32_le(&mut buf, self.height);
        proof {
            assert(buf@ =~= self.spec_serialize());
        }
        buf
    }

    /// Decode a payload from the first 20 bytes of `bytes`.
    pub fn deserialize(bytes: &[u8]) -> (r: Result<(Self, usize), IpcError>)
        ensures
            match r {
                Ok((m, n)) => bytes@.len() >= 20 && n == 20 && m.spec_matches(bytes@, 0),
                Err(e) => bytes@.len() < 20 && e == IpcError::UnexpectedEnd,
            },
    {
        if bytes.len() < 20 {
            return Err(IpcError::UnexpectedEnd);
        }
        let m = Self {
            request_id: read_u32_le(bytes, 0),
            x: read_u32_le(bytes, 4),
            y: read_u32_le(bytes, 8),
            width: read_u32_le(bytes, 12),
            height: read_u32_le(bytes, 16),
        };
        Ok((m, 20))
    }

    /// Round trip at an offset: if the bytes at `o` are `m`'s encoding,
    /// a value that matches the decoder's reading there agrees with `m`.
    pub proof fn lemma_roundtrip_at(m: Self, m2: Self, s: Seq<u8>, o: int)
        requires
            0 <= o,
            o + 20 <= s.len(),
            s.subrange(o, o + 20) == m.spec_serialize(),
            m2.spec_matches(s, o),
        ensures
            m2 == m,
    {
        let ser = m.spec_serialize();
        let sub = s.subrange(o, o + 20);
        assert(ser.len() == 20);
        assert(s[o] == sub[0] && sub[0] == ser[0]);
        assert(s[o + 1] == sub[1] && sub[1] == ser[1]);
        assert(s[o + 2] == sub[2] && sub[2] == ser[2]);
        assert(s[o + 3] == sub[3] && sub[3] == ser[3]);
        lemma_u32_le_at(s, o, m.request_id);
        assert(s[o + 4] == sub[4] && sub[4] == ser[4]);
        assert(s[o + 5] == sub[5] && sub[5] == ser[5]);
        assert(s[o + 6] == sub[6] && sub[6] == ser[6]);
        assert(s[o + 7] == sub[7] && sub[7] == ser[7]);
        lemma_u32_le_at(s, o + 4, m.x);
        assert(s[o + 8] == sub[8] && sub[8] == ser[8]);
        assert(s[o + 9] == sub[9] && sub[9] == ser[9]);
        assert(s[o + 10] == sub[10] && sub[10] == ser[10]);
        assert(s[o + 11] == sub[11] && sub[11] == ser[11]);
        lemma_u32_le_at(s, o + 8, m.y);
        assert(s[o + 12] == sub[12] && sub[12] == ser[12]);
        assert(s[o + 13] == sub[13] && sub[13] == ser[13]);
        assert(s[o + 14] == sub[14] && sub[14] == ser[14]);
        assert(s[o + 15] == sub[15] && sub[15] == ser[15]);
        lemma_u32_le_at(s, o + 12, m.width);
        assert(s[o + 16] == sub[16] && sub[16] == ser[16]);
        assert(s[o + 17] == sub[17] && sub[17] == ser[17]);
        assert(s[o + 18] == sub[18] && sub[18] == ser[18]);
        assert(s[o + 19] == sub[19] && sub[19] == ser[19]);
        lemma_u32_le_at(s, o + 16, m.height);
    }

    /// Round trip: a value that matches the decoder's reading of `m`'s
    /// own encoding is `m` itself.
    pub proof fn lemma_roundtrip(m: Self, m2: Self)
        requires
            m2.spec_matches(m.spec_serialize(), 0),
        ensures
            m2 == m,
    {
        assert(m.spec_serialize().subrange(0, 20) =~= m.spec_serialize());
        Self::lemma_roundtrip_at(m, m2, m.spec_serialize(), 0);
    }
}

/// Compositor response: the pixel bytes of a screen-copy request.
#[derive(Debug, Clone, PartialEq, Eq)]
pub struct IcmMsgScreenCopyData {
    pub request_id: u32,
    pub width: u32,
    pub height: u32,
    pub format: u32,
    pub data: Vec<u8>,
}

impl IcmMsgScreenCopyData {
    /// The payload's wire form: 16 fixed bytes, a `u32` byte count, then
    /// that many raw bytes.
    pub open spec fn spec_serialize(self) -> Seq<u8> {
        spec_u32_le(self.request_id) + spec_u32_le(self.width) + spec_u32_le(self.height) + spec_u32_le(self.format) + spec_u32_le(self.data@.len() as u32) + self.data@
    }

    /// The decoder's reading of a payload in `s`: fixed fields at their
    /// offsets, then exactly as many raw bytes as the count declares.
    pub open spec fn spec_matches(self, s: Seq<u8>) -> bool {
        &&& self.request_id == spec_u32_at(s, 0)
        &&& self.width == spec_u32_at(s, 4)
        &&& self.height == spec_u32_at(s, 8)
        &&& self.format == spec_u32_at(s, 12)
        &&& self.data@ == s.subrange(20, 20 + spec_u32_at(s, 16))
    }

    /// Encode the payload.
    pub fn serialize(&self) -> (r: Vec<u8>)
        requires
            self.data@.len() <= u32::MAX,
        ensures
            r@ == self.spec_serialize(),
            r@.len() == 20 + self.data@.len(),
    {
        let mut buf: Vec<u8> = Vec::new();
        write_u32_le(&mut buf, self.request_id);
        write_u32_le(&mut buf, self.width);
        write_u32_le(&mut buf, self.height);
        write_u32_le(&mut buf, self.format);
        write_u32_le(&mut buf, self.data.len() as u32);
        write_bytes(&mut buf, self.data.as_slice());
        proof {
            assert(buf@ =~= self.spec_serialize());
        }
        buf
    }

    /// Decode a payload from `bytes`: the fixed fields, the count, then
    /// exactly `count` raw bytes, failing if fewer are available.
    pub fn deserialize(bytes: &[u8]) -> (r: Result<(Self, usize), IpcError>)
        ensures
            match r {
                Ok((m, n)) => {
                    &&& bytes@.len() >= 20 + spec_u32_at(bytes@, 16)
                    &&& m.spec_matches(bytes@)
                    &&& n == 20 + spec_u32_at(bytes@, 16)
                },
                Err(e) => {
                    &&& e == IpcError::UnexpectedEnd
                    &&& (bytes@.len() < 20 || bytes@.len() < 20 + spec_u32_at(
                        bytes@,
                        16,
                    ))
                },
            },
    {
        if bytes.len() < 20 {
            return Err(IpcError::UnexpectedEnd);
        }
        let count = read_u32_le(bytes, 16) as usize;
        if bytes.len() - 20 < count {
            return Err(IpcError::UnexpectedEnd);
        }
        let m = Self {
            request_id: read_u32_le(bytes, 0),
            width: read_u32_le(bytes, 4),
            height: read_u32_le(bytes, 8),
            format: read_u32_le(bytes, 12),
            data: read_bytes(bytes, 20, count),
        };
        Ok((m, 20 + count))
    }

    /// Round trip: a value that matches the decoder's reading of `m`'s own
    /// encoding agrees with `m`.
    pub proof fn lemma_roundtrip(m: Self, m2: Self)
        requires
            m.data@.len() <= u32::MAX,
            m2.spec_matches(m.spec_serialize()),
        ensures
            m2.request_id == m.request_id,
            m2.width == m.width,
            m2.height == m.height,
            m2.format == m.format,
            m2.data@ == m.data@,
    {
        let s = m.spec_serialize();
        let p0 = spec_u32_le(m.request_id);
        let p1 = spec_u32_le(m.width);
        let p2 = spec_u32_le(m.height);
        let p3 = spec_u32_le(m.format);
        let p4 = spec_u32_le(m.data@.len() as u32);
        assert(s == p0 + p1 + p2 + p3 + p4 + m.data@);
        let dl = m.data@.len() as int;
        assert(s.len() == 20 + dl);
        assert(s[0] == p0[0]);
        assert(s[1] == p0[1]);
        assert(s[2] == p0[2]);
        assert(s[3] == p0[3]);
        lemma_u32_le_at(s, 0, m.request_id);
        assert(s[4] == p1[0]);
        assert(s[5] == p1[1]);
        assert(s[6] == p1[2]);
        assert(s[7] == p1[3]);
        lemma_u32_le_at(s, 4, m.width);
        assert(s[8] == p2[0]);
        assert(s[9] == p2[1]);
        assert(s[10] == p2[2]);
        assert(s[11] == p2[3]);
        lemma_u32_le_at(s, 8, m.height);
        assert(s[12] == p3[0]);
        assert(s[13] == p3[1]);
        assert(s[14] == p3[2]);
        assert(s[15] == p3[3]);
        lemma_u32_le_at(s, 12, m.format);
        assert(s[16] == p4[0]);
        assert(s[17] == p4[1]);
        assert(s[18] == p4[2]);
        assert(s[19] == p4[3]);
        lemma_u32_le_at(s, 16, m.data@.len() as u32);
        assert(m.data@.len() as u32 == dl);
        assert(spec_u32_at(s, 16) == dl);
        assert forall|j: int| 0 <= j < dl implies s[20 + j] == m.data@[j] by {
            assert((p0 + p1 + p2 + p3 + p4 + m.data@)[20 + j] == m.data@[j]);
        }
        assert(s.subrange(20, 20 + dl) =~= m.data@);
    }
}

/// The registry's size table agrees with these codecs: every encoded
/// payload satisfies the length rule registered for its message type.
pub proof fn lemma_sizes_match_registry(
    create_buffer: IcmMsgCreateBuffer,
    destroy_buffer: IcmMsgDestroyBuffer,
    upload_image: IcmMsgUploadImage,
    destroy_image: IcmMsgDestroyImage,
    request_screen_copy: IcmMsgRequestScreenCopy,
    screen_copy_data: IcmMsgScreenCopyData,
)
    ensures
        spec_payload_len_ok(
            IcmIpcMsgType::CreateBuffer.spec_payload_shape(),
            create_buffer.spec_serialize().len() as int,
        ),
        spec_payload_len_ok(
            IcmIpcMsgType::DestroyBuffer.spec_payload_shape(),
            destroy_buffer.spec_serialize().len() as int,
        ),
        spec_payload_len_ok(
            IcmIpcMsgType::UploadImage.spec_payload_shape(),
            upload_image.spec_serialize().len() as int,
        ),
        spec_payload_len_ok(
            IcmIpcMsgType::DestroyImage.spec_payload_shape(),
            destroy_image.spec_serialize().len() as int,
        ),
        spec_payload_len_ok(
            IcmIpcMsgType::RequestScreenCopy.spec_payload_shape(),
            request_screen_copy.spec_serialize().len() as int,
        ),
        spec_payload_len_ok(
            IcmIpcMsgType::ScreenCopyData.spec_payload_shape(),
            screen_copy_data.spec_serialize().len() as int,
        ),
{
}

} // verus!
