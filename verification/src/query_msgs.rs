//! Compositor state queries and their responses.

use crate::error::IpcError;
use crate::registry::{spec_payload_len_ok, IcmIpcMsgType};
use crate::utf8::{is_utf8, spec_is_utf8};
use crate::wire::{
    lemma_find_zero_at, lemma_find_zero_none, lemma_i32_le_at, lemma_u32_le_at, read_byte,
    read_i32_le, read_u32_le, spec_bool_le, spec_find_zero, spec_i32_at, spec_i32_le,
    spec_u32_at, spec_u32_le, write_bool, write_byte, write_bytes, write_i32_le, write_u32_le,
};
use vstd::prelude::*;

verus! {

/// Ask for a window's position.
#[derive(Debug, Clone, Copy, PartialEq, Eq, Structural)]
pub struct IcmMsgQueryWindowPosition {
    pub window_id: u32,
}

impl IcmMsgQueryWindowPosition {
    /// The payload's wire form: 4 bytes.
    pub open spec fn spec_serialize(self) -> Seq<u8> {
        spec_u32_le(self.window_id)
    }

    /// The decoder's reading of a payload held at offset `o` of `s`.
    pub open spec fn spec_matches(self, s: Seq<u8>, o: int) -> bool {
        &&& self.window_id == spec_u32_at(s, o)
    }

    /// Encode the payload.
    pub fn serialize(&self) -> (r: Vec<u8>)
        ensures
            r@ == self.spec_serialize(),
            r@.len() == 4,
    {
        let mut buf: Vec<u8> = Vec::new();
        write_u32_le(&mut buf, self.window_id);
        proof {
            assert(buf@ =~= self.spec_serialize());
        }
        buf
    }

    /// Decode a payload from the first 4 bytes of `bytes`.
    pub fn deserialize(bytes: &[u8]) -> (r: Result<(Self, usize), IpcError>)
        ensures
            match r {
                Ok((m, n)) => bytes@.len() >= 4 && n == 4 && m.spec_matches(bytes@, 0),
                Err(e) => bytes@.len() < 4 && e == IpcError::UnexpectedEnd,
            },
    {
        if bytes.len() < 4 {
            return Err(IpcError::UnexpectedEnd);
        }
        let m = Self {
            window_id: read_u32_le(bytes, 0),
        };
        Ok((m, 4))
    }

    /// Round trip at an offset: if the bytes at `o` are `m`'s encoding,
    /// a value that matches the decoder's reading there agrees with `m`.
    pub proof fn lemma_roundtrip_at(m: Self, m2: Self, s: Seq<u8>, o: int)
        requires
            0 <= o,
            o + 4 <= s.len(),
            s.subrange(o, o + 4) == m.spec_serialize(),
            m2.spec_matches(s, o),
        ensures
            m2 == m,
    {
        let ser = m.spec_serialize();
        let sub = s.subrange(o, o + 4);
        assert(ser.len() == 4);
        assert(s[o] == sub[0] && sub[0] == ser[0]);
        assert(s[o + 1] == sub[1] && sub[1] == ser[1]);
        assert(s[o + 2] == sub[2] && sub[2] == ser[2]);
        assert(s[o + 3] == sub[3] && sub[3] == ser[3]);
        lemma_u32_le_at(s, o, m.window_id);
    }

    /// Round trip: a value that matches the decoder's reading of `m`'s
    /// own encoding is `m` itself.
    pub proof fn lemma_roundtrip(m: Self, m2: Self)
        requires
            m2.spec_matches(m.spec_serialize(), 0),
        ensures
            m2 == m,
    {
        assert(m.spec_serialize().subrange(0, 4) =~= m.spec_serialize());
        Self::lemma_roundtrip_at(m, m2, m.spec_serialize(), 0);
    }
}

/// Ask for a window's size.
#[derive(Debug, Clone, Copy, PartialEq, Eq, Structural)]
pub struct IcmMsgQueryWindowSize {
    pub window_id: u32,
}

impl IcmMsgQueryWindowSize {
    /// The payload's wire form: 4 bytes.
    pub open spec fn spec_serialize(self) -> Seq<u8> {
        spec_u32_le(self.window_id)
    }

    /// The decoder's reading of a payload held at offset `o` of `s`.
    pub open spec fn spec_matches(self, s: Seq<u8>, o: int) -> bool {
        &&& self.window_id == spec_u32_at(s, o)
    }

    /// Encode the payload.
    pub fn serialize(&self) -> (r: Vec<u8>)
        ensures
            r@ == self.spec_serialize(),
            r@.len() == 4,
    {
        let mut buf: Vec<u8> = Vec::new();
        write_u32_le(&mut buf, self.window_id);
        proof {
            assert(buf@ =~= self.spec_serialize());
        }
        buf
    }

    /// Decode a payload from the first 4 bytes of `bytes`.
    pub fn deserialize(bytes: &[u8]) -> (r: Result<(Self, usize), IpcError>)
        ensures
            match r {
                Ok((m, n)) => bytes@.len() >= 4 && n == 4 && m.spec_matches(bytes@, 0),
                Err(e) => bytes@.len() < 4 && e == IpcError::UnexpectedEnd,
            },
    {
        if bytes.len() < 4 {
            return Err(IpcError::UnexpectedEnd);
        }
        let m = Self {
            window_id: read_u32_le(bytes, 0),
        };
        Ok((m, 4))
    }

    /// Round trip at an offset: if the bytes at `o` are `m`'s encoding,
    /// a value that matches the decoder's reading there agrees with `m`.
    pub proof fn lemma_roundtrip_at(m: Self, m2: Self, s: Seq<u8>, o: int)
        requires
            0 <= o,
            o + 4 <= s.len(),
            s.subrange(o, o + 4) == m.spec_serialize(),
            m2.spec_matches(s, o),
        ensures
            m2 == m,
    {
        let ser = m.spec_serialize();
        let sub = s.subrange(o, o + 4);
        assert(ser.len() == 4);
        assert(s[o] == sub[0] && sub[0] == ser[0]);
        assert(s[o + 1] == sub[1] && sub[1] == ser[1]);
        assert(s[o + 2] == sub[2] && sub[2] == ser[2]);
        assert(s[o + 3] == sub[3] && sub[3] == ser[3]);
        lemma_u32_le_at(s, o, m.window_id);
    }

    /// Round trip: a value that matches the decoder's reading of `m`'s
    /// own encoding is `m` itself.
    pub proof fn lemma_roundtrip(m: Self, m2: Self)
        requires
            m2.spec_matches(m.spec_serialize(), 0),
        ensures
            m2 == m,
    {
        assert(m.spec_serialize().subrange(0, 4) =~= m.spec_serialize());
        Self::lemma_roundtrip_at(m, m2, m.spec_serialize(), 0);
    }
}

/// Ask for a window's display attributes.
#[derive(Debug, Clone, Copy, PartialEq, Eq, Structural)]
pub struct IcmMsgQueryWindowAttributes {
    pub window_id: u32,
}

impl IcmMsgQueryWindowAttributes {
    /// The payload's wire form: 4 bytes.
    pub open spec fn spec_serialize(self) -> Seq<u8> {
        spec_u32_le(self.window_id)
    }

    /// The decoder's reading of a payload held at offset `o` of `s`.
    pub open spec fn spec_matches(self, s: Seq<u8>, o: int) -> bool {
        &&& self.window_id == spec_u32_at(s, o)
    }

    /// Encode the payload.
    pub fn serialize(&self) -> (r: Vec<u8>)
        ensures
            r@ == self.spec_serialize(),
            r@.len() == 4,
    {
        let mut buf: Vec<u8> = Vec::new();
        write_u32_le(&mut buf, self.window_id);
        proof {
            assert(buf@ =~= self.spec_serialize());
        }
        buf
    }

    /// Decode a payload from the first 4 bytes of `bytes`.
    pub fn deserialize(bytes: &[u8]) -> (r: Result<(Self, usize), IpcError>)
        ensures
            match r {
                Ok((m, n)) => bytes@.len() >= 4 && n == 4 && m.spec_matches(bytes@, 0),
                Err(e) => bytes@.len() < 4 && e == IpcError::UnexpectedEnd,
            },
    {
        if bytes.len() < 4 {
            return Err(IpcError::UnexpectedEnd);
        }
        let m = Self {
            window_id: read_u32_le(bytes, 0),
        };
        Ok((m, 4))
    }

    /// Round trip at an offset: if the bytes at `o` are `m`'s encoding,
    /// a value that matches the decoder's reading there agrees with `m`.
    pub proof fn lemma_roundtrip_at(m: Self, m2: Self, s: Seq<u8>, o: int)
        requires
            0 <= o,
            o + 4 <= s.len(),
            s.subrange(o, o + 4) == m.spec_serialize(),
            m2.spec_matches(s, o),
        ensures
            m2 == m,
    {
        let ser = m.spec_serialize();
        let sub = s.subrange(o, o + 4);
        assert(ser.len() == 4);
        assert(s[o] == sub[0] && sub[0] == ser[0]);
        assert(s[o + 1] == sub[1] && sub[1] == ser[1]);
        assert(s[o + 2] == sub[2] && sub[2] == ser[2]);
        assert(s[o + 3] == sub[3] && sub[3] == ser[3]);
        lemma_u32_le_at(s, o, m.window_id);
    }

    /// Round trip: a value that matches the decoder's reading of `m`'s
    /// own encoding is `m` itself.
    pub proof fn lemma_roundtrip(m: Self, m2: Self)
        requires
            m2.spec_matches(m.spec_serialize(), 0),
        ensures
            m2 == m,
    {
        assert(m.spec_serialize().subrange(0, 4) =~= m.spec_serialize());
        Self::lemma_roundtrip_at(m, m2, m.spec_serialize(), 0);
    }
}

/// Ask for a window's layer and parent.
#[derive(Debug, Clone, Copy, PartialEq, Eq, Structural)]
pub struct IcmMsgQueryWindowLayer {
    pub window_id: u32,
}

impl IcmMsgQueryWindowLayer {
    /// The payload's wire form: 4 bytes.
    pub open spec fn spec_serialize(self) -> Seq<u8> {
        spec_u32_le(self.window_id)
    }

    /// The decoder's reading of a payload held at offset `o` of `s`.
    pub open spec fn spec_matches(self, s: Seq<u8>, o: int) -> bool {
        &&& self.window_id == spec_u32_at(s, o)
    }

    /// Encode the payload.
    pub fn serialize(&self) -> (r: Vec<u8>)
        ensures
            r@ == self.spec_serialize(),
            r@.len() == 4,
    {
        let mut buf: Vec<u8> = Vec::new();
        write_u32_le(&mut buf, self.window_id);
        proof {
            assert(buf@ =~= self.spec_serialize());
        }
        buf
    }

    /// Decode a payload from the first 4 bytes of `bytes`.
    pub fn deserialize(bytes: &[u8]) -> (r: Result<(Self, usize), IpcError>)
        ensures
            match r {
                Ok((m, n)) => bytes@.len() >= 4 && n == 4 && m.spec_matches(bytes@, 0),
                Err(e) => bytes@.len() < 4 && e == IpcError::UnexpectedEnd,
            },
    {
        if bytes.len() < 4 {
            return Err(IpcError::UnexpectedEnd);
        }
        let m = Self {
            window_id: read_u32_le(bytes, 0),
        };
        Ok((m, 4))
    }

    /// Round trip at an offset: if the bytes at `o` are `m`'s encoding,
    /// a value that matches the decoder's reading there agrees with `m`.
    pub proof fn lemma_roundtrip_at(m: Self, m2: Self, s: Seq<u8>, o: int)
        requires
            0 <= o,
            o + 4 <= s.len(),
            s.subrange(o, o + 4) == m.spec_serialize(),
            m2.spec_matches(s, o),
        ensures
            m2 == m,
    {
        let ser = m.spec_serialize();
        let sub = s.subrange(o, o + 4);
        assert(ser.len() == 4);
        assert(s[o] == sub[0] && sub[0] == ser[0]);
        assert(s[o + 1] == sub[1] && sub[1] == ser[1]);
        assert(s[o + 2] == sub[2] && sub[2] == ser[2]);
        assert(s[o + 3] == sub[3] && sub[3] == ser[3]);
        lemma_u32_le_at(s, o, m.window_id);
    }

    /// Round trip: a value that matches the decoder's reading of `m`'s
    /// own encoding is `m` itself.
    pub proof fn lemma_roundtrip(m: Self, m2: Self)
        requires
            m2.spec_matches(m.spec_serialize(), 0),
        ensures
            m2 == m,
    {
        assert(m.spec_serialize().subrange(0, 4) =~= m.spec_serialize());
        Self::lemma_roundtrip_at(m, m2, m.spec_serialize(), 0);
    }
}

/// Ask for a window's state word and focus.
#[derive(Debug, Clone, Copy, PartialEq, Eq, Structural)]
pub struct IcmMsgQueryWindowState {
    pub window_id: u32,
}

impl IcmMsgQueryWindowState {
    /// The payload's wire form: 4 bytes.
    pub open spec fn spec_serialize(self) -> Seq<u8> {
        spec_u32_le(self.window_id)
    }

    /// The decoder's reading of a payload held at offset `o` of `s`.
    pub open spec fn spec_matches(self, s: Seq<u8>, o: int) -> bool {
        &&& self.window_id == spec_u32_at(s, o)
    }

    /// Encode the payload.
    pub fn serialize(&self) -> (r: Vec<u8>)
        ensures
            r@ == self.spec_serialize(),
            r@.len() == 4,
    {
        let mut buf: Vec<u8> = Vec::new();
        write_u32_le(&mut buf, self.window_id);
        proof {
            assert(buf@ =~= self.spec_serialize());
        }
        buf
    }

    /// Decode a payload from the first 4 bytes of `bytes`.
    pub fn deserialize(bytes: &[u8]) -> (r: Result<(Self, usize), IpcError>)
        ensures
            match r {
                Ok((m, n)) => bytes@.len() >= 4 && n == 4 && m.spec_matches(bytes@, 0),
                Err(e) => bytes@.len() < 4 && e == IpcError::UnexpectedEnd,
            },
    {
        if bytes.len() < 4 {
            return Err(IpcError::UnexpectedEnd);
        }
        let m = Self {
            window_id: read_u32_le(bytes, 0),
        };
        Ok((m, 4))
    }

    /// Round trip at an offset: if the bytes at `o` are `m`'s encoding,
    /// a value that matches the decoder's reading there agrees with `m`.
    pub proof fn lemma_roundtrip_at(m: Self, m2: Self, s: Seq<u8>, o: int)
        requires
            0 <= o,
            o + 4 <= s.len(),
            s.subrange(o, o + 4) == m.spec_serialize(),
            m2.spec_matches(s, o),
        ensures
            m2 == m,
    {
        let ser = m.spec_serialize();
        let sub = s.subrange(o, o + 4);
        assert(ser.len() == 4);
        assert(s[o] == sub[0] && sub[0] == ser[0]);
        assert(s[o + 1] == sub[1] && sub[1] == ser[1]);
        assert(s[o + 2] == sub[2] && sub[2] == ser[2]);
        assert(s[o + 3] == sub[3] && sub[3] == ser[3]);
        lemma_u32_le_at(s, o, m.window_id);
    }

    /// Round trip: a value that matches the decoder's reading of `m`'s
    /// own encoding is `m` itself.
    pub proof fn lemma_roundtrip(m: Self, m2: Self)
        requires
            m2.spec_matches(m.spec_serialize(), 0),
        ensures
            m2 == m,
    {
        assert(m.spec_serialize().subrange(0, 4) =~= m.spec_serialize());
        Self::lemma_roundtrip_at(m, m2, m.spec_serialize(), 0);
    }
}

/// Response: a window's position.
#[derive(Debug, Clone, Copy, PartialEq, Eq, Structural)]
pub struct IcmMsgWindowPositionData {
    pub window_id: u32,
    pub x: i32,
    pub y: i32,
}

impl IcmMsgWindowPositionData {
    /// The payload's wire form: 12 bytes.
    pub open spec fn spec_serialize(self) -> Seq<u8> {
        spec_u32_le(self.window_id) + spec_i32_le(self.x) + spec_i32_le(self.y)
    }

    /// The decoder's reading of a payload held at offset `o` of `s`.
    pub open spec fn spec_matches(self, s: Seq<u8>, o: int) -> bool {
        &&& self.window_id == spec_u32_at(s, o)
        &&& self.x == spec_i32_at(s, o + 4)
        &&& self.y == spec_i32_at(s, o + 8)
    }

    /// Encode the payload.
    pub fn serialize(&self) -> (r: Vec<u8>)
        ensures
            r@ == self.spec_serialize(),
            r@.len() == 12,
    {
        let mut buf: Vec<u8> = Vec::new();
        write_u32_le(&mut buf, self.window_id);
        write_i32_le(&mut buf, self.x);
        write_i32_le(&mut buf, self.y);
        proof {
            assert(buf@ =~= self.spec_serialize());
        }
        buf
    }

    /// Decode a payload from the first 12 bytes of `bytes`.
    pub fn deserialize(bytes: &[u8]) -> (r: Result<(Self, usize), IpcError>)
        ensures
            match r {
                Ok((m, n)) => bytes@.len() >= 12 && n == 12 && m.spec_matches(bytes@, 0),
                Err(e) => bytes@.len() < 12 && e == IpcError::UnexpectedEnd,
            },
    {
        if bytes.len() < 12 {
            return Err(IpcError::UnexpectedEnd);
        }
        let m = Self {
            window_id: read_u32_le(bytes, 0),
            x: read_i32_le(bytes, 4),
            y: read_i32_le(bytes, 8),
        };
        Ok((m, 12))
    }

    /// Round trip at an offset: if the bytes at `o` are `m`'s encoding,
    /// a value that matches the decoder's reading there agrees with `m`.
    pub proof fn lemma_roundtrip_at(m: Self, m2: Self, s: Seq<u8>, o: int)
        requires
            0 <= o,
            o + 12 <= s.len(),
            s.subrange(o, o + 12) == m.spec_serialize(),
            m2.spec_matches(s, o),
        ensures
            m2 == m,
    {
        let ser = m.spec_serialize();
        let sub = s.subrange(o, o + 12);
        assert(ser.len() == 12);
        assert(s[o] == sub[0] && sub[0] == ser[0]);
        assert(s[o + 1] == sub[1] && sub[1] == ser[1]);
        assert(s[o + 2] == sub[2] && sub[2] == ser[2]);
        assert(s[o + 3] == sub[3] && sub[3] == ser[3]);
        lemma_u32_le_at(s, o, m.window_id);
        assert(s[o + 4] == sub[4] && sub[4] == ser[4]);
        assert(s[o + 5] == sub[5] && sub[5] == ser[5]);
        assert(s[o + 6] == sub[6] && sub[6] == ser[6]);
        assert(s[o + 7] == sub[7] && sub[7] == ser[7]);
        lemma_i32_le_at(s, o + 4, m.x);
        assert(s[o + 8] == sub[8] && sub[8] == ser[8]);
        assert(s[o + 9] == sub[9] && sub[9] == ser[9]);
        assert(s[o + 10] == sub[10] && sub[10] == ser[10]);
        assert(s[o + 11] == sub[11] && sub[11] == ser[11]);
        lemma_i32_le_at(s, o + 8, m.y);
    }

    /// Round trip: a value that matches the decoder's reading of `m`'s
    /// own encoding is `m` itself.
    pub proof fn lemma_roundtrip(m: Self, m2: Self)
        requires
            m2.spec_matches(m.spec_serialize(), 0),
        ensures
            m2 == m,
    {
        assert(m.spec_serialize().subrange(0, 12) =~= m.spec_serialize());
        Self::lemma_roundtrip_at(m, m2, m.spec_serialize(), 0);
    }
}

/// Response: a window's size.
#[derive(Debug, Clone, Copy, PartialEq, Eq, Structural)]
pub struct IcmMsgWindowSizeData {
    pub window_id: u32,
    pub width: u32,
    pub height: u32,
}

impl IcmMsgWindowSizeData {
    /// The payload's wire form: 12 bytes.
    pub open spec fn spec_serialize(self) -> Seq<u8> {
        spec_u32_le(self.window_id) + spec_u32_le(self.width) + spec_u32_le(self.height)
    }

    /// The decoder's reading of a payload held at offset `o` of `s`.
    pub open spec fn spec_matches(self, s: Seq<u8>, o: int) -> bool {
        &&& self.window_id == spec_u32_at(s, o)
        &&& self.width == spec_u32_at(s, o + 4)
        &&& self.height == spec_u32_at(s, o + 8)
    }

    /// Encode the payload.
    pub fn serialize(&self) -> (r: Vec<u8>)
        ensures
            r@ == self.spec_serialize(),
            r@.len() == 12,
    {
        let mut buf: Vec<u8> = Vec::new();
        write_u32_le(&mut buf, self.window_id);
        write_u32_le(&mut buf, self.width);
        write_u32_le(&mut buf, self.height);
        proof {
            assert(buf@ =~= self.spec_serialize());
        }
        buf
    }

    /// Decode a payload from the first 12 bytes of `bytes`.
    pub fn deserialize(bytes: &[u8]) -> (r: Result<(Self, usize), IpcError>)
        ensures
            match r {
                Ok((m, n)) => bytes@.len() >= 12 && n == 12 && m.spec_matches(bytes@, 0),
                Err(e) => bytes@.len() < 12 && e == IpcError::UnexpectedEnd,
            },
    {
        if bytes.len() < 12 {
            return Err(IpcError::UnexpectedEnd);
        }
        let m = Self {
            window_id: read_u32_le(bytes, 0),
            width: read_u32_le(bytes, 4),
            height: read_u32_le(bytes, 8),
        };
        Ok((m, 12))
    }

    /// Round trip at an offset: if the bytes at `o` are `m`'s encoding,
    /// a value that matches the decoder's reading there agrees with `m`.
    pub proof fn lemma_roundtrip_at(m: Self, m2: Self, s: Seq<u8>, o: int)
        requires
            0 <= o,
            o + 12 <= s.len(),
            s.subrange(o, o + 12) == m.spec_serialize(),
            m2.spec_matches(s, o),
        ensures
            m2 == m,
    {
        let ser = m.spec_serialize();
        let sub = s.subrange(o, o + 12);
        assert(ser.len() == 12);
        assert(s[o] == sub[0] && sub[0] == ser[0]);
        assert(s[o + 1] == sub[1] && sub[1] == ser[1]);
        assert(s[o + 2] == sub[2] && sub[2] == ser[2]);
        assert(s[o + 3] == sub[3] && sub[3] == ser[3]);
        lemma_u32_le_at(s, o, m.window_id);
        assert(s[o + 4] == sub[4] && sub[4] == ser[4]);
        assert(s[o + 5] == sub[5] && sub[5] == ser[5]);
        assert(s[o + 6] == sub[6] && sub[6] == ser[6]);
        assert(s[o + 7] == sub[7] && sub[7] == ser[7]);
        lemma_u32_le_at(s, o + 4, m.width);
        assert(s[o + 8] == sub[8] && sub[8] == ser[8]);
        assert(s[o + 9] == sub[9] && sub[9] == ser[9]);
        assert(s[o + 10] == sub[10] && sub[10] == ser[10]);
        assert(s[o + 11] == sub[11] && sub[11] == ser[11]);
        lemma_u32_le_at(s, o + 8, m.height);
    }

    /// Round trip: a value that matches the decoder's reading of `m`'s
    /// own encoding is `m` itself.
    pub proof fn lemma_roundtrip(m: Self, m2: Self)
        requires
            m2.spec_matches(m.spec_serialize(), 0),
        ensures
            m2 == m,
    {
        assert(m.spec_serialize().subrange(0, 12) =~= m.spec_serialize());
        Self::lemma_roundtrip_at(m, m2, m.spec_serialize(), 0);
    }
}

/// Response: a window's visibility, opacity and transform.
#[derive(Debug, Clone, Copy, PartialEq, Eq, Structural)]
pub struct IcmMsgWindowAttributesData {
    pub window_id: u32,
    pub visible: bool,
    pub opacity: u32,
    pub scale_x: u32,
    pub scale_y: u32,
    pub rotation: u32,
}

impl IcmMsgWindowAttributesData {
    /// The payload's wire form: 21 bytes.
    pub open spec fn spec_serialize(self) -> Seq<u8> {
        spec_u32_le(self.window_id) + spec_bool_le(self.visible) + spec_u32_le(self.opacity) + spec_u32_le(self.scale_x) + spec_u32_le(self.scale_y) + spec_u32_le(self.rotation)
    }

    /// The decoder's reading of a payload held at offset `o` of `s`.
    pub open spec fn spec_matches(self, s: Seq<u8>, o: int) -> bool {
        &&& self.window_id == spec_u32_at(s, o)
        &&& self.visible == (s[o + 4] != 0)
        &&& self.opacity == spec_u32_at(s, o + 5)
        &&& self.scale_x == spec_u32_at(s, o + 9)
        &&& self.scale_y == spec_u32_at(s, o + 13)
        &&& self.rotation == spec_u32_at(s, o + 17)
    }

    /// Encode the payload.
    pub fn serialize(&self) -> (r: Vec<u8>)
        ensures
            r@ == self.spec_serialize(),
            r@.len() == 21,
    {
        let mut buf: Vec<u8> = Vec::new();
        write_u32_le(&mut buf, self.window_id);
        write_bool(&mut buf, self.visible);
        write_u32_le(&mut buf, self.opacity);
        write_u32_le(&mut buf, self.scale_x);
        write_u32_le(&mut buf, self.scale_y);
        write_u32_le(&mut buf, self.rotation);
        proof {
            assert(buf@ =~= self.spec_serialize());
        }
        buf
    }

    /// Decode a payload from the first 21 bytes of `bytes`.
    pub fn deserialize(bytes: &[u8]) -> (r: Result<(Self, usize), IpcError>)
        ensures
            match r {
                Ok((m, n)) => bytes@.len() >= 21 && n == 21 && m.spec_matches(bytes@, 0),
                Err(e) => bytes@.len() < 21 && e == IpcError::UnexpectedEnd,
            },
    {
        if bytes.len() < 21 {
            return Err(IpcError::UnexpectedEnd);
        }
        let m = Self {
            window_id: read_u32_le(bytes, 0),
            visible: read_byte(bytes, 4) != 0,
            opacity: read_u32_le(bytes, 5),
            scale_x: read_u32_le(bytes, 9),
            scale_y: read_u32_le(bytes, 13),
            rotation: read_u32_le(bytes, 17),
        };
        Ok((m, 21))
    }

    /// Round trip at an offset: if the bytes at `o` are `m`'s encoding,
    /// a value that matches the decoder's reading there agrees with `m`.
    pub proof fn lemma_roundtrip_at(m: Self, m2: Self, s: Seq<u8>, o: int)
        requires
            0 <= o,
            o + 21 <= s.len(),
            s.subrange(o, o + 21) == m.spec_serialize(),
            m2.spec_matches(s, o),
        ensures
            m2 == m,
    {
        let ser = m.spec_serialize();
        let sub = s.subrange(o, o + 21);
        assert(ser.len() == 21);
        assert(s[o] == sub[0] && sub[0] == ser[0]);
        assert(s[o + 1] == sub[1] && sub[1] == ser[1]);
        assert(s[o + 2] == sub[2] && sub[2] == ser[2]);
        assert(s[o + 3] == sub[3] && sub[3] == ser[3]);
        lemma_u32_le_at(s, o, m.window_id);
        assert(s[o + 4] == sub[4] && sub[4] == ser[4]);
        assert(s[o + 4] == (if m.visible { 1u8 } else { 0u8 }));
        assert(s[o + 5] == sub[5] && sub[5] == ser[5]);
        assert(s[o + 6] == sub[6] && sub[6] == ser[6]);
        assert(s[o + 7] == sub[7] && sub[7] == ser[7]);
        assert(s[o + 8] == sub[8] && sub[8] == ser[8]);
        lemma_u32_le_at(s, o + 5, m.opacity);
        assert(s[o + 9] == sub[9] && sub[9] == ser[9]);
        assert(s[o + 10] == sub[10] && sub[10] == ser[10]);
        assert(s[o + 11] == sub[11] && sub[11] == ser[11]);
        assert(s[o + 12] == sub[12] && sub[12] == ser[12]);
        lemma_u32_le_at(s, o + 9, m.scale_x);
        assert(s[o + 13] == sub[13] && sub[13] == ser[13]);
        assert(s[o + 14] == sub[14] && sub[14] == ser[14]);
        assert(s[o + 15] == sub[15] && sub[15] == ser[15]);
        assert(s[o + 16] == sub[16] && sub[16] == ser[16]);
        lemma_u32_le_at(s, o + 13, m.scale_y);
        assert(s[o + 17] == sub[17] && sub[17] == ser[17]);
        assert(s[o + 18] == sub[18] && sub[18] == ser[18]);
        assert(s[o + 19] == sub[19] && sub[19] == ser[19]);
        assert(s[o + 20] == sub[20] && sub[20] == ser[20]);
        lemma_u32_le_at(s, o + 17, m.rotation);
    }

    /// Round trip: a value that matches the decoder's reading of `m`'s
    /// own encoding is `m` itself.
    pub proof fn lemma_roundtrip(m: Self, m2: Self)
        requires
            m2.spec_matches(m.spec_serialize(), 0),
        ensures
            m2 == m,
    {
        assert(m.spec_serialize().subrange(0, 21) =~= m.spec_serialize());
        Self::lemma_roundtrip_at(m, m2, m.spec_serialize(), 0);
    }
}

/// Response: a window's layer and parent.
#[derive(Debug, Clone, Copy, PartialEq, Eq, Structural)]
pub struct IcmMsgWindowLayerData {
    pub window_id: u32,
    pub layer: i32,
    pub parent_id: u32,
}

impl IcmMsgWindowLayerData {
    /// The payload's wire form: 12 bytes.
    pub open spec fn spec_serialize(self) -> Seq<u8> {
        spec_u32_le(self.window_id) + spec_i32_le(self.layer) + spec_u32_le(self.parent_id)
    }

    /// The decoder's reading of a payload held at offset `o` of `s`.
    pub open spec fn spec_matches(self, s: Seq<u8>, o: int) -> bool {
        &&& self.window_id == spec_u32_at(s, o)
        &&& self.layer == spec_i32_at(s, o + 4)
        &&& self.parent_id == spec_u32_at(s, o + 8)
    }

    /// Encode the payload.
    pub fn serialize(&self) -> (r: Vec<u8>)
        ensures
            r@ == self.spec_serialize(),
            r@.len() == 12,
    {
        let mut buf: Vec<u8> = Vec::new();
        write_u32_le(&mut buf, self.window_id);
        write_i32_le(&mut buf, self.layer);
        write_u32_le(&mut buf, self.parent_id);
        proof {
            assert(buf@ =~= self.spec_serialize());
        }
        buf
    }

    /// Decode a payload from the first 12 bytes of `bytes`.
    pub fn deserialize(bytes: &[u8]) -> (r: Result<(Self, usize), IpcError>)
        ensures
            match r {
                Ok((m, n)) => bytes@.len() >= 12 && n == 12 && m.spec_matches(bytes@, 0),
                Err(e) => bytes@.len() < 12 && e == IpcError::UnexpectedEnd,
            },
    {
        if bytes.len() < 12 {
            return Err(IpcError::UnexpectedEnd);
        }
        let m = Self {
            window_id: read_u32_le(bytes, 0),
            layer: read_i32_le(bytes, 4),
            parent_id: read_u32_le(bytes, 8),
        };
        Ok((m, 12))
    }

    /// Round trip at an offset: if the bytes at `o` are `m`'s encoding,
    /// a value that matches the decoder's reading there agrees with `m`.
    pub proof fn lemma_roundtrip_at(m: Self, m2: Self, s: Seq<u8>, o: int)
        requires
            0 <= o,
            o + 12 <= s.len(),
            s.subrange(o, o + 12) == m.spec_serialize(),
            m2.spec_matches(s, o),
        ensures
            m2 == m,
    {
        let ser = m.spec_serialize();
        let sub = s.subrange(o, o + 12);
        assert(ser.len() == 12);
        assert(s[o] == sub[0] && sub[0] == ser[0]);
        assert(s[o + 1] == sub[1] && sub[1] == ser[1]);
        assert(s[o + 2] == sub[2] && sub[2] == ser[2]);
        assert(s[o + 3] == sub[3] && sub[3] == ser[3]);
        lemma_u32_le_at(s, o, m.window_id);
        assert(s[o + 4] == sub[4] && sub[4] == ser[4]);
        assert(s[o + 5] == sub[5] && sub[5] == ser[5]);
        assert(s[o + 6] == sub[6] && sub[6] == ser[6]);
        assert(s[o + 7] == sub[7] && sub[7] == ser[7]);
        lemma_i32_le_at(s, o + 4, m.layer);
        assert(s[o + 8] == sub[8] && sub[8] == ser[8]);
        assert(s[o + 9] == sub[9] && sub[9] == ser[9]);
        assert(s[o + 10] == sub[10] && sub[10] == ser[10]);
        assert(s[o + 11] == sub[11] && sub[11] == ser[11]);
        lemma_u32_le_at(s, o + 8, m.parent_id);
    }

    /// Round trip: a value that matches the decoder's reading of `m`'s
    /// own encoding is `m` itself.
    pub proof fn lemma_roundtrip(m: Self, m2: Self)
        requires
            m2.spec_matches(m.spec_serialize(), 0),
        ensures
            m2 == m,
    {
        assert(m.spec_serialize().subrange(0, 12) =~= m.spec_serialize());
        Self::lemma_roundtrip_at(m, m2, m.spec_serialize(), 0);
    }
}

/// Response: a window's state word and focus.
#[derive(Debug, Clone, Copy, PartialEq, Eq, Structural)]
pub struct IcmMsgWindowStateData {
    pub window_id: u32,
    pub state: u32,
    pub focused: bool,
}

impl IcmMsgWindowStateData {
    /// The payload's wire form: 9 bytes.
    pub open spec fn spec_serialize(self) -> Seq<u8> {
        spec_u32_le(self.window_id) + spec_u32_le(self.state) + spec_bool_le(self.focused)
    }

    /// The decoder's reading of a payload held at offset `o` of `s`.
    pub open spec fn spec_matches(self, s: Seq<u8>, o: int) -> bool {
        &&& self.window_id == spec_u32_at(s, o)
        &&& self.state == spec_u32_at(s, o + 4)
        &&& self.focused == (s[o + 8] != 0)
    }

    /// Encode the payload.
    pub fn serialize(&self) -> (r: Vec<u8>)
        ensures
            r@ == self.spec_serialize(),
            r@.len() == 9,
    {
        let mut buf: Vec<u8> = Vec::new();
        write_u32_le(&mut buf, self.window_id);
        write_u32_le(&mut buf, self.state);
        write_bool(&mut buf, self.focused);
        proof {
            assert(buf@ =~= self.spec_serialize());
        }
        buf
    }

    /// Decode a payload from the first 9 bytes of `bytes`.
    pub fn deserialize(bytes: &[u8]) -> (r: Result<(Self, usize), IpcError>)
        ensures
            match r {
                Ok((m, n)) => bytes@.len() >= 9 && n == 9 && m.spec_matches(bytes@, 0),
                Err(e) => bytes@.len() < 9 && e == IpcError::UnexpectedEnd,
            },
    {
        if bytes.len() < 9 {
            return Err(IpcError::UnexpectedEnd);
        }
        let m = Self {
            window_id: read_u32_le(bytes, 0),
            state: read_u32_le(bytes, 4),
            focused: read_byte(bytes, 8) != 0,
        };
        Ok((m, 9))
    }

    /// Round trip at an offset: if the bytes at `o` are `m`'s encoding,
    /// a value that matches the decoder's reading there agrees with `m`.
    pub proof fn lemma_roundtrip_at(m: Self, m2: Self, s: Seq<u8>, o: int)
        requires
            0 <= o,
            o + 9 <= s.len(),
            s.subrange(o, o + 9) == m.spec_serialize(),
            m2.spec_matches(s, o),
        ensures
            m2 == m,
    {
        let ser = m.spec_serialize();
        let sub = s.subrange(o, o + 9);
        assert(ser.len() == 9);
        assert(s[o] == sub[0] && sub[0] == ser[0]);
        assert(s[o + 1] == sub[1] && sub[1] == ser[1]);
        assert(s[o + 2] == sub[2] && sub[2] == ser[2]);
        assert(s[o + 3] == sub[3] && sub[3] == ser[3]);
        lemma_u32_le_at(s, o, m.window_id);
        assert(s[o + 4] == sub[4] && sub[4] == ser[4]);
        assert(s[o + 5] == sub[5] && sub[5] == ser[5]);
        assert(s[o + 6] == sub[6] && sub[6] == ser[6]);
        assert(s[o + 7] == sub[7] && sub[7] == ser[7]);
        lemma_u32_le_at(s, o + 4, m.state);
        assert(s[o + 8] == sub[8] && sub[8] == ser[8]);
        assert(s[o + 8] == (if m.focused { 1u8 } else { 0u8 }));
    }

    /// Round trip: a value that matches the decoder's reading of `m`'s
    /// own encoding is `m` itself.
    pub proof fn lemma_roundtrip(m: Self, m2: Self)
        requires
            m2.spec_matches(m.spec_serialize(), 0),
        ensures
            m2 == m,
    {
        assert(m.spec_serialize().subrange(0, 9) =~= m.spec_serialize());
        Self::lemma_roundtrip_at(m, m2, m.spec_serialize(), 0);
    }
}

/// Ask for the total screen dimensions.  Carries no payload.
#[derive(Debug, Clone, Copy, PartialEq, Eq, Structural)]
pub struct IcmMsgQueryScreenDimensions;

impl IcmMsgQueryScreenDimensions {
    /// The payload's wire form: empty.
    pub open spec fn spec_serialize(self) -> Seq<u8> {
        Seq::empty()
    }

    /// Encode the payload: no bytes.
    pub fn serialize(&self) -> (r: Vec<u8>)
        ensures
            r@ == self.spec_serialize(),
            r@.len() == 0,
    {
        Vec::new()
    }

    /// Decode the payload: consumes no bytes and cannot fail.
    pub fn deserialize(_bytes: &[u8]) -> (r: Result<(Self, usize), IpcError>)
        ensures
            r == Ok::<(IcmMsgQueryScreenDimensions, usize), IpcError>((IcmMsgQueryScreenDimensions, 0)),
    {
        Ok((IcmMsgQueryScreenDimensions, 0))
    }
}

/// Response: the total screen dimensions and scale.
#[derive(Debug, Clone, Copy, PartialEq, Eq, Structural)]
pub struct IcmMsgScreenDimensionsData {
    pub total_width: u32,
    pub total_height: u32,
    pub scale: u32,
}

impl IcmMsgScreenDimensionsData {
    /// The payload's wire form: 12 bytes.
    pub open spec fn spec_serialize(self) -> Seq<u8> {
        spec_u32_le(self.total_width) + spec_u32_le(self.total_height) + spec_u32_le(self.scale)
    }

    /// The decoder's reading of a payload held at offset `o` of `s`.
    pub open spec fn spec_matches(self, s: Seq<u8>, o: int) -> bool {
        &&& self.total_width == spec_u32_at(s, o)
        &&& self.total_height == spec_u32_at(s, o + 4)
        &&& self.scale == spec_u32_at(s, o + 8)
    }

    /// Encode the payload.
    pub fn serialize(&self) -> (r: Vec<u8>)
        ensures
            r@ == self.spec_serialize(),
            r@.len() == 12,
    {
        let mut buf: Vec<u8> = Vec::new();
        write_u32_le(&mut buf, self.total_width);
        write_u32_le(&mut buf, self.total_height);
        write_u32_le(&mut buf, self.scale);
        proof {
            assert(buf@ =~= self.spec_serialize());
        }
        buf
    }

    /// Decode a payload from the first 12 bytes of `bytes`.
    pub fn deserialize(bytes: &[u8]) -> (r: Result<(Self, usize), IpcError>)
        ensures
            match r {
                Ok((m, n)) => bytes@.len() >= 12 && n == 12 && m.spec_matches(bytes@, 0),
                Err(e) => bytes@.len() < 12 && e == IpcError::UnexpectedEnd,
            },
    {
        if bytes.len() < 12 {
            return Err(IpcError::UnexpectedEnd);
        }
        let m = Self {
            total_width: read_u32_le(bytes, 0),
            total_height: read_u32_le(bytes, 4),
            scale: read_u32_le(bytes, 8),
        };
        Ok((m, 12))
    }

    /// Round trip at an offset: if the bytes at `o` are `m`'s encoding,
    /// a value that matches the decoder's reading there agrees with `m`.
    pub proof fn lemma_roundtrip_at(m: Self, m2: Self, s: Seq<u8>, o: int)
        requires
            0 <= o,
            o + 12 <= s.len(),
            s.subrange(o, o + 12) == m.spec_serialize(),
            m2.spec_matches(s, o),
        ensures
            m2 == m,
    {
        let ser = m.spec_serialize();
        let sub = s.subrange(o, o + 12);
        assert(ser.len() == 12);
        assert(s[o] == sub[0] && sub[0] == ser[0]);
        assert(s[o + 1] == sub[1] && sub[1] == ser[1]);
        assert(s[o + 2] == sub[2] && sub[2] == ser[2]);
        assert(s[o + 3] == sub[3] && sub[3] == ser[3]);
        lemma_u32_le_at(s, o, m.total_width);
        assert(s[o + 4] == sub[4] && sub[4] == ser[4]);
        assert(s[o + 5] == sub[5] && sub[5] == ser[5]);
        assert(s[o + 6] == sub[6] && sub[6] == ser[6]);
        assert(s[o + 7] == sub[7] && sub[7] == ser[7]);
        lemma_u32_le_at(s, o + 4, m.total_height);
        assert(s[o + 8] == sub[8] && sub[8] == ser[8]);
        assert(s[o + 9] == sub[9] && sub[9] == ser[9]);
        assert(s[o + 10] == sub[10] && sub[10] == ser[10]);
        assert(s[o + 11] == sub[11] && sub[11] == ser[11]);
        lemma_u32_le_at(s, o + 8, m.scale);
    }

    /// Round trip: a value that matches the decoder's reading of `m`'s
    /// own encoding is `m` itself.
    pub proof fn lemma_roundtrip(m: Self, m2: Self)
        requires
            m2.spec_matches(m.spec_serialize(), 0),
        ensures
            m2 == m,
    {
        assert(m.spec_serialize().subrange(0, 12) =~= m.spec_serialize());
        Self::lemma_roundtrip_at(m, m2, m.spec_serialize(), 0);
    }
}

/// Ask for the full record of a window.
#[derive(Debug, Clone, Copy, PartialEq, Eq, Structural)]
pub struct IcmMsgQueryWindowInfo {
    pub window_id: u32,
}

impl IcmMsgQueryWindowInfo {
    /// The payload's wire form: 4 bytes.
    pub open spec fn spec_serialize(self) -> Seq<u8> {
        spec_u32_le(self.window_id)
    }

    /// The decoder's reading of a payload held at offset `o` of `s`.
    pub open spec fn spec_matches(self, s: Seq<u8>, o: int) -> bool {
        &&& self.window_id == spec_u32_at(s, o)
    }

    /// Encode the payload.
    pub fn serialize(&self) -> (r: Vec<u8>)
        ensures
            r@ == self.spec_serialize(),
            r@.len() == 4,
    {
        let mut buf: Vec<u8> = Vec::new();
        write_u32_le(&mut buf, self.window_id);
        proof {
            assert(buf@ =~= self.spec_serialize());
        }
        buf
    }

    /// Decode a payload from the first 4 bytes of `bytes`.
    pub fn deserialize(bytes: &[u8]) -> (r: Result<(Self, usize), IpcError>)
        ensures
            match r {
                Ok((m, n)) => bytes@.len() >= 4 && n == 4 && m.spec_matches(bytes@, 0),
                Err(e) => bytes@.len() < 4 && e == IpcError::UnexpectedEnd,
            },
    {
        if bytes.len() < 4 {
            return Err(IpcError::UnexpectedEnd);
        }
        let m = Self {
            window_id: read_u32_le(bytes, 0),
        };
        Ok((m, 4))
    }

    /// Round trip at an offset: if the bytes at `o` are `m`'s encoding,
    /// a value that matches the decoder's reading there agrees with `m`.
    pub proof fn lemma_roundtrip_at(m: Self, m2: Self, s: Seq<u8>, o: int)
        requires
            0 <= o,
            o + 4 <= s.len(),
            s.subrange(o, o + 4) == m.spec_serialize(),
            m2.spec_matches(s, o),
        ensures
            m2 == m,
    {
        let ser = m.spec_serialize();
        let sub = s.subrange(o, o + 4);
        assert(ser.len() == 4);
        assert(s[o] == sub[0] && sub[0] == ser[0]);
        assert(s[o + 1] == sub[1] && sub[1] == ser[1]);
        assert(s[o + 2] == sub[2] && sub[2] == ser[2]);
        assert(s[o + 3] == sub[3] && sub[3] == ser[3]);
        lemma_u32_le_at(s, o, m.window_id);
    }

    /// Round trip: a value that matches the decoder's reading of `m`'s
    /// own encoding is `m` itself.
    pub proof fn lemma_roundtrip(m: Self, m2: Self)
        requires
            m2.spec_matches(m.spec_serialize(), 0),
        ensures
            m2 == m,
    {
        assert(m.spec_serialize().subrange(0, 4) =~= m.spec_serialize());
        Self::lemma_roundtrip_at(m, m2, m.spec_serialize(), 0);
    }
}

/// Response: the full record of a window, ending in its owner's process name.
#[derive(Debug, Clone, PartialEq, Eq)]
pub struct IcmMsgWindowInfoData {
    pub window_id: u32,
    pub x: i32,
    pub y: i32,
    pub width: u32,
    pub height: u32,
    pub visible: bool,
    pub opacity: u32,
    pub scale_x: u32,
    pub scale_y: u32,
    pub rotation: u32,
    pub layer: i32,
    pub parent_id: u32,
    pub state: u32,
    pub focused: bool,
    pub pid: u32,
    pub process_name: Vec<u8>,
}

impl IcmMsgWindowInfoData {
    /// The payload's wire form: 54 fixed bytes, the string's bytes, then
    /// a single terminating zero byte.
    pub open spec fn spec_serialize(self) -> Seq<u8> {
        spec_u32_le(self.window_id) + spec_i32_le(self.x) + spec_i32_le(self.y) + spec_u32_le(self.width) + spec_u32_le(self.height) + spec_bool_le(self.visible) + spec_u32_le(self.opacity) + spec_u32_le(self.scale_x) + spec_u32_le(self.scale_y) + spec_u32_le(self.rotation) + spec_i32_le(self.layer) + spec_u32_le(self.parent_id) + spec_u32_le(self.state) + spec_bool_le(self.focused) + spec_u32_le(self.pid) + self.process_name@ + seq![0u8]
    }

    /// The decoder's reading of a payload in `s`: fixed fields at their
    /// offsets, then every byte before the first terminator.
    pub open spec fn spec_matches(self, s: Seq<u8>) -> bool {
        &&& self.window_id == spec_u32_at(s, 0)
        &&& self.x == spec_i32_at(s, 4)
        &&& self.y == spec_i32_at(s, 8)
        &&& self.width == spec_u32_at(s, 12)
        &&& self.height == spec_u32_at(s, 16)
        &&& self.visible == (s[20] != 0)
        &&& self.opacity == spec_u32_at(s, 21)
        &&& self.scale_x == spec_u32_at(s, 25)
        &&& self.scale_y == spec_u32_at(s, 29)
        &&& self.rotation == spec_u32_at(s, 33)
        &&& self.layer == spec_i32_at(s, 37)
        &&& self.parent_id == spec_u32_at(s, 41)
        &&& self.state == spec_u32_at(s, 45)
        &&& self.focused == (s[49] != 0)
        &&& self.pid == spec_u32_at(s, 50)
        &&& spec_find_zero(s, 54) is Some
        &&& self.process_name@ == s.subrange(54, spec_find_zero(s, 54).unwrap())
    }

    /// Encode the payload.
    pub fn serialize(&self) -> (r: Vec<u8>)
        ensures
            r@ == self.spec_serialize(),
            r@.len() == 54 + 1 + self.process_name@.len(),
    {
        let mut buf: Vec<u8> = Vec::new();
        write_u32_le(&mut buf, self.window_id);
        write_i32_le(&mut buf, self.x);
        write_i32_le(&mut buf, self.y);
        write_u32_le(&mut buf, self.width);
        write_u32_le(&mut buf, self.height);
        write_bool(&mut buf, self.visible);
        write_u32_le(&mut buf, self.opacity);
        write_u32_le(&mut buf, self.scale_x);
        write_u32_le(&mut buf, self.scale_y);
        write_u32_le(&mut buf, self.rotation);
        write_i32_le(&mut buf, self.layer);
        write_u32_le(&mut buf, self.parent_id);
        write_u32_le(&mut buf, self.state);
        write_bool(&mut buf, self.focused);
        write_u32_le(&mut buf, self.pid);
        write_bytes(&mut buf, self.process_name.as_slice());
        write_byte(&mut buf, 0);
        proof {
            assert(buf@ =~= self.spec_serialize());
        }
        buf
    }

    /// Decode a payload from `bytes`: the fixed fields, then bytes up to
    /// the first zero, which must form valid UTF-8.
    #[verifier::rlimit(50)]
    pub fn deserialize(bytes: &[u8]) -> (r: Result<(Self, usize), IpcError>)
        ensures
            match r {
                Ok((m, n)) => {
                    &&& bytes@.len() >= 54 + 1
                    &&& m.spec_matches(bytes@)
                    &&& spec_is_utf8(m.process_name@)
                    &&& n == spec_find_zero(bytes@, 54).unwrap() + 1
                },
                Err(e) => {
                    ||| (bytes@.len() < 54 && e == IpcError::UnexpectedEnd)
                    ||| (bytes@.len() >= 54 && spec_find_zero(bytes@, 54) is None
                        && e == IpcError::UnexpectedEnd)
                    ||| (spec_find_zero(bytes@, 54) is Some && !spec_is_utf8(
                        bytes@.subrange(54, spec_find_zero(bytes@, 54).unwrap()),
                    ) && e == IpcError::InvalidUtf8)
                },
            },
    {
        if bytes.len() < 54 {
            return Err(IpcError::UnexpectedEnd);
        }
        let total = bytes.len();
        let mut process_name: Vec<u8> = Vec::new();
        let mut i: usize = 54;
        while i < total && bytes[i] != 0
            invariant
                54 <= i <= total,
                total == bytes@.len(),
                forall|j: int| 54 <= j < i ==> bytes@[j] != 0,
                process_name@ == bytes@.subrange(54, i as int),
            decreases total - i,
        {
            process_name.push(bytes[i]);
            proof {
                assert(process_name@ =~= bytes@.subrange(54, i + 1));
            }
            i = i + 1;
        }
        if i == total {
            proof {
                lemma_find_zero_none(bytes@, 54);
            }
            return Err(IpcError::UnexpectedEnd);
        }
        proof {
            lemma_find_zero_at(bytes@, 54, i as int);
        }
        if !is_utf8(process_name.as_slice()) {
            return Err(IpcError::InvalidUtf8);
        }
        let m = Self {
            window_id: read_u32_le(bytes, 0),
            x: read_i32_le(bytes, 4),
            y: read_i32_le(bytes, 8),
            width: read_u32_le(bytes, 12),
            height: read_u32_le(bytes, 16),
            visible: read_byte(bytes, 20) != 0,
            opacity: read_u32_le(bytes, 21),
            scale_x: read_u32_le(bytes, 25),
            scale_y: read_u32_le(bytes, 29),
            rotation: read_u32_le(bytes, 33),
            layer: read_i32_le(bytes, 37),
            parent_id: read_u32_le(bytes, 41),
            state: read_u32_le(bytes, 45),
            focused: read_byte(bytes, 49) != 0,
            pid: read_u32_le(bytes, 50),
            process_name,
        };
        Ok((m, i + 1))
    }

    /// Round trip: a value that matches the decoder's reading of `m`'s own
    /// encoding agrees with `m`, provided the string holds no zero byte.
    #[verifier::rlimit(100)]
    pub proof fn lemma_roundtrip(m: Self, m2: Self)
        requires
            forall|j: int| 0 <= j < m.process_name@.len() ==> m.process_name@[j] != 0,
            m2.spec_matches(m.spec_serialize()),
        ensures
            m2.window_id == m.window_id,
            m2.x == m.x,
            m2.y == m.y,
            m2.width == m.width,
            m2.height == m.height,
            m2.visible == m.visible,
            m2.opacity == m.opacity,
            m2.scale_x == m.scale_x,
            m2.scale_y == m.scale_y,
            m2.rotation == m.rotation,
            m2.layer == m.layer,
            m2.parent_id == m.parent_id,
            m2.state == m.state,
            m2.focused == m.focused,
            m2.pid == m.pid,
            m2.process_name@ == m.process_name@,
    {
        let s = m.spec_serialize();
        let p0 = spec_u32_le(m.window_id);
        let p1 = spec_i32_le(m.x);
        let p2 = spec_i32_le(m.y);
        let p3 = spec_u32_le(m.width);
        let p4 = spec_u32_le(m.height);
        let p5 = spec_bool_le(m.visible);
        let p6 = spec_u32_le(m.opacity);
        let p7 = spec_u32_le(m.scale_x);
        let p8 = spec_u32_le(m.scale_y);
        let p9 = spec_u32_le(m.rotation);
        let p10 = spec_i32_le(m.layer);
        let p11 = spec_u32_le(m.parent_id);
        let p12 = spec_u32_le(m.state);
        let p13 = spec_bool_le(m.focused);
        let p14 = spec_u32_le(m.pid);
        assert(s == p0 + p1 + p2 + p3 + p4 + p5 + p6 + p7 + p8 + p9 + p10 + p11 + p12 + p13 + p14 + m.process_name@ + seq![0u8]);
        let tl = m.process_name@.len() as int;
        assert(s.len() == 54 + tl + 1);
        assert(s[54 + tl] == 0);
        assert forall|j: int| 0 <= j < tl implies s[54 + j] == m.process_name@[j] by {
            assert((p0 + p1 + p2 + p3 + p4 + p5 + p6 + p7 + p8 + p9 + p10 + p11 + p12 + p13 + p14 + m.process_name@ + seq![0u8])[54 + j] == m.process_name@[j]);
        }
        assert forall|j: int| 54 <= j < 54 + tl implies s[j] != 0 by {
            assert(s[54 + (j - 54)] == m.process_name@[j - 54]);
        }
        lemma_find_zero_at(s, 54, 54 + tl);
        assert(s.subrange(54, 54 + tl) =~= m.process_name@);
        assert(s[0] == p0[0]);
        assert(s[1] == p0[1]);
        assert(s[2] == p0[2]);
        assert(s[3] == p0[3]);
        lemma_u32_le_at(s, 0, m.window_id);
        assert(s[4] == p1[0]);
        assert(s[5] == p1[1]);
        assert(s[6] == p1[2]);
        assert(s[7] == p1[3]);
        lemma_i32_le_at(s, 4, m.x);
        assert(s[8] == p2[0]);
        assert(s[9] == p2[1]);
        assert(s[10] == p2[2]);
        assert(s[11] == p2[3]);
        lemma_i32_le_at(s, 8, m.y);
        assert(s[12] == p3[0]);
        assert(s[13] == p3[1]);
        assert(s[14] == p3[2]);
        assert(s[15] == p3[3]);
        lemma_u32_le_at(s, 12, m.width);
        assert(s[16] == p4[0]);
        assert(s[17] == p4[1]);
        assert(s[18] == p4[2]);
        assert(s[19] == p4[3]);
        lemma_u32_le_at(s, 16, m.height);
        assert(s[20] == p5[0]);
        assert(s[20] == (if m.visible { 1u8 } else { 0u8 }));
        assert(s[21] == p6[0]);
        assert(s[22] == p6[1]);
        assert(s[23] == p6[2]);
        assert(s[24] == p6[3]);
        lemma_u32_le_at(s, 21, m.opacity);
        assert(s[25] == p7[0]);
        assert(s[26] == p7[1]);
        assert(s[27] == p7[2]);
        assert(s[28] == p7[3]);
        lemma_u32_le_at(s, 25, m.scale_x);
        assert(s[29] == p8[0]);
        assert(s[30] == p8[1]);
        assert(s[31] == p8[2]);
        assert(s[32] == p8[3]);
        lemma_u32_le_at(s, 29, m.scale_y);
        assert(s[33] == p9[0]);
        assert(s[34] == p9[1]);
        assert(s[35] == p9[2]);
        assert(s[36] == p9[3]);
        lemma_u32_le_at(s, 33, m.rotation);
        assert(s[37] == p10[0]);
        assert(s[38] == p10[1]);
        assert(s[39] == p10[2]);
        assert(s[40] == p10[3]);
        lemma_i32_le_at(s, 37, m.layer);
        assert(s[41] == p11[0]);
        assert(s[42] == p11[1]);
        assert(s[43] == p11[2]);
        assert(s[44] == p11[3]);
        lemma_u32_le_at(s, 41, m.parent_id);
        assert(s[45] == p12[0]);
        assert(s[46] == p12[1]);
        assert(s[47] == p12[2]);
        assert(s[48] == p12[3]);
        lemma_u32_le_at(s, 45, m.state);
        assert(s[49] == p13[0]);
        assert(s[49] == (if m.focused { 1u8 } else { 0u8 }));
        assert(s[50] == p14[0]);
        assert(s[51] == p14[1]);
        assert(s[52] == p14[2]);
        assert(s[53] == p14[3]);
        lemma_u32_le_at(s, 50, m.pid);
    }
}

/// Ask for the list of toplevel windows.
#[derive(Debug, Clone, Copy, PartialEq, Eq, Structural)]
pub struct IcmMsgQueryToplevelWindows {
    pub flags: u32,
}

impl IcmMsgQueryToplevelWindows {
    /// The payload's wire form: 4 bytes.
    pub open spec fn spec_serialize(self) -> Seq<u8> {
        spec_u32_le(self.flags)
    }

    /// The decoder's reading of a payload held at offset `o` of `s`.
    pub open spec fn spec_matches(self, s: Seq<u8>, o: int) -> bool {
        &&& self.flags == spec_u32_at(s, o)
    }

    /// Encode the payload.
    pub fn serialize(&self) -> (r: Vec<u8>)
        ensures
            r@ == self.spec_serialize(),
            r@.len() == 4,
    {
        let mut buf: Vec<u8> = Vec::new();
        write_u32_le(&mut buf, self.flags);
        proof {
            assert(buf@ =~= self.spec_serialize());
        }
        buf
    }

    /// Decode a payload from the first 4 bytes of `bytes`.
    pub fn deserialize(bytes: &[u8]) -> (r: Result<(Self, usize), IpcError>)
        ensures
            match r {
                Ok((m, n)) => bytes@.len() >= 4 && n == 4 && m.spec_matches(bytes@, 0),
                Err(e) => bytes@.len() < 4 && e == IpcError::UnexpectedEnd,
            },
    {
        if bytes.len() < 4 {
            return Err(IpcError::UnexpectedEnd);
        }
        let m = Self {
            flags: read_u32_le(bytes, 0),
        };
        Ok((m, 4))
    }

    /// Round trip at an offset: if the bytes at `o` are `m`'s encoding,
    /// a value that matches the decoder's reading there agrees with `m`.
    pub proof fn lemma_roundtrip_at(m: Self, m2: Self, s: Seq<u8>, o: int)
        requires
            0 <= o,
            o + 4 <= s.len(),
            s.subrange(o, o + 4) == m.spec_serialize(),
            m2.spec_matches(s, o),
        ensures
            m2 == m,
    {
        let ser = m.spec_serialize();
        let sub = s.subrange(o, o + 4);
        assert(ser.len() == 4);
        assert(s[o] == sub[0] && sub[0] == ser[0]);
        assert(s[o + 1] == sub[1] && sub[1] == ser[1]);
        assert(s[o + 2] == sub[2] && sub[2] == ser[2]);
        assert(s[o + 3] == sub[3] && sub[3] == ser[3]);
        lemma_u32_le_at(s, o, m.flags);
    }

    /// Round trip: a value that matches the decoder's reading of `m`'s
    /// own encoding is `m` itself.
    pub proof fn lemma_roundtrip(m: Self, m2: Self)
        requires
            m2.spec_matches(m.spec_serialize(), 0),
        ensures
            m2 == m,
    {
        assert(m.spec_serialize().subrange(0, 4) =~= m.spec_serialize());
        Self::lemma_roundtrip_at(m, m2, m.spec_serialize(), 0);
    }
}

/// Subscribe to window lifecycle events.
#[derive(Debug, Clone, Copy, PartialEq, Eq, Structural)]
pub struct IcmMsgSubscribeWindowEvents {
    pub event_mask: u32,
}

impl IcmMsgSubscribeWindowEvents {
    /// The payload's wire form: 4 bytes.
    pub open spec fn spec_serialize(self) -> Seq<u8> {
        spec_u32_le(self.event_mask)
    }

    /// The decoder's reading of a payload held at offset `o` of `s`.
    pub open spec fn spec_matches(self, s: Seq<u8>, o: int) -> bool {
        &&& self.event_mask == spec_u32_at(s, o)
    }

    /// Encode the payload.
    pub fn serialize(&self) -> (r: Vec<u8>)
        ensures
            r@ == self.spec_serialize(),
            r@.len() == 4,
    {
        let mut buf: Vec<u8> = Vec::new();
        write_u32_le(&mut buf, self.event_mask);
        proof {
            assert(buf@ =~= self.spec_serialize());
        }
        buf
    }

    /// Decode a payload from the first 4 bytes of `bytes`.
    pub fn deserialize(bytes: &[u8]) -> (r: Result<(Self, usize), IpcError>)
        ensures
            match r {
                Ok((m, n)) => bytes@.len() >= 4 && n == 4 && m.spec_matches(bytes@, 0),
                Err(e) => bytes@.len() < 4 && e == IpcError::UnexpectedEnd,
            },
    {
        if bytes.len() < 4 {
            return Err(IpcError::UnexpectedEnd);
        }
        let m = Self {
            event_mask: read_u32_le(bytes, 0),
        };
        Ok((m, 4))
    }

    /// Round trip at an offset: if the bytes at `o` are `m`'s encoding,
    /// a value that matches the decoder's reading there agrees with `m`.
    pub proof fn lemma_roundtrip_at(m: Self, m2: Self, s: Seq<u8>, o: int)
        requires
            0 <= o,
            o + 4 <= s.len(),
            s.subrange(o, o + 4) == m.spec_serialize(),
            m2.spec_matches(s, o),
        ensures
            m2 == m,
    {
        let ser = m.spec_serialize();
        let sub = s.subrange(o, o + 4);
        assert(ser.len() == 4);
        assert(s[o] == sub[0] && sub[0] == ser[0]);
        assert(s[o + 1] == sub[1] && sub[1] == ser[1]);
        assert(s[o + 2] == sub[2] && sub[2] == ser[2]);
        assert(s[o + 3] == sub[3] && sub[3] == ser[3]);
        lemma_u32_le_at(s, o, m.event_mask);
    }

    /// Round trip: a value that matches the decoder's reading of `m`'s
    /// own encoding is `m` itself.
    pub proof fn lemma_roundtrip(m: Self, m2: Self)
        requires
            m2.spec_matches(m.spec_serialize(), 0),
        ensures
            m2 == m,
    {
        assert(m.spec_serialize().subrange(0, 4) =~= m.spec_serialize());
        Self::lemma_roundtrip_at(m, m2, m.spec_serialize(), 0);
    }
}

/// One window of the toplevel enumeration response: geometry, state, and the
/// window's title and application id as raw UTF-8 bytes.
#[derive(Debug, Clone, PartialEq, Eq)]
pub struct IcmToplevelWindowEntry {
    pub window_id: u32,
    pub x: i32,
    pub y: i32,
    pub width: u32,
    pub height: u32,
    pub visible: bool,
    pub focused: bool,
    pub state: u32,
    pub title: Vec<u8>,
    pub app_id: Vec<u8>,
}

/// The registry's size table agrees with these codecs: every encoded
/// payload satisfies the length rule registered for its message type.
pub proof fn lemma_sizes_match_registry(
    query_window_position: IcmMsgQueryWindowPosition,
    query_window_size: IcmMsgQueryWindowSize,
    query_window_attributes: IcmMsgQueryWindowAttributes,
    query_window_layer: IcmMsgQueryWindowLayer,
    query_window_state: IcmMsgQueryWindowState,
    window_position_data: IcmMsgWindowPositionData,
    window_size_data: IcmMsgWindowSizeData,
    window_attributes_data: IcmMsgWindowAttributesData,
    window_layer_data: IcmMsgWindowLayerData,
    window_state_data: IcmMsgWindowStateData,
    query_screen_dimensions: IcmMsgQueryScreenDimensions,
    screen_dimensions_data: IcmMsgScreenDimensionsData,
    query_window_info: IcmMsgQueryWindowInfo,
    window_info_data: IcmMsgWindowInfoData,
    query_toplevel_windows: IcmMsgQueryToplevelWindows,
    subscribe_window_events: IcmMsgSubscribeWindowEvents,
)
    ensures
        spec_payload_len_ok(
            IcmIpcMsgType::QueryWindowPosition.spec_payload_shape(),
            query_window_position.spec_serialize().len() as int,
        ),
        spec_payload_len_ok(
            IcmIpcMsgType::QueryWindowSize.spec_payload_shape(),
            query_window_size.spec_serialize().len() as int,
        ),
        spec_payload_len_ok(
            IcmIpcMsgType::QueryWindowAttributes.spec_payload_shape(),
            query_window_attributes.spec_serialize().len() as int,
        ),
        spec_payload_len_ok(
            IcmIpcMsgType::QueryWindowLayer.spec_payload_shape(),
            query_window_layer.spec_serialize().len() as int,
        ),
        spec_payload_len_ok(
            IcmIpcMsgType::QueryWindowState.spec_payload_shape(),
            query_window_state.spec_serialize().len() as int,
        ),
        spec_payload_len_ok(
            IcmIpcMsgType::WindowPositionData.spec_payload_shape(),
            window_position_data.spec_serialize().len() as int,
        ),
        spec_payload_len_ok(
            IcmIpcMsgType::WindowSizeData.spec_payload_shape(),
            window_size_data.spec_serialize().len() as int,
        ),
        spec_payload_len_ok(
            IcmIpcMsgType::WindowAttributesData.spec_payload_shape(),
            window_attributes_data.spec_serialize().len() as int,
        ),
        spec_payload_len_ok(
            IcmIpcMsgType::WindowLayerData.spec_payload_shape(),
            window_layer_data.spec_serialize().len() as int,
        ),
        spec_payload_len_ok(
            IcmIpcMsgType::WindowStateData.spec_payload_shape(),
            window_state_data.spec_serialize().len() as int,
        ),
        spec_payload_len_ok(
            IcmIpcMsgType::QueryScreenDimensions.spec_payload_shape(),
            query_screen_dimensions.spec_serialize().len() as int,
        ),
        spec_payload_len_ok(
            IcmIpcMsgType::ScreenDimensionsData.spec_payload_shape(),
            screen_dimensions_data.spec_serialize().len() as int,
        ),
        spec_payload_len_ok(
            IcmIpcMsgType::QueryWindowInfo.spec_payload_shape(),
            query_window_info.spec_serialize().len() as int,
        ),
        spec_payload_len_ok(
            IcmIpcMsgType::WindowInfoData.spec_payload_shape(),
            window_info_data.spec_serialize().len() as int,
        ),
        spec_payload_len_ok(
            IcmIpcMsgType::QueryToplevelWindows.spec_payload_shape(),
            query_toplevel_windows.spec_serialize().len() as int,
        ),
        spec_payload_len_ok(
            IcmIpcMsgType::SubscribeWindowEvents.spec_payload_shape(),
            subscribe_window_events.spec_serialize().len() as int,
        ),
{
}

} // verus!
