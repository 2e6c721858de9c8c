//! Window lifecycle, geometry, stacking, transform and animation messages.

use crate::error::IpcError;
use crate::registry::{spec_payload_len_ok, IcmIpcMsgType};
use crate::wire::{
    lemma_i32_le_at, lemma_u32_le_at, read_byte, read_i32_le, read_u32_le, spec_bool_le,
    spec_i32_at, spec_i32_le, spec_u32_at, spec_u32_le, write_bool, write_i32_le, write_u32_le,
};
use crate::wire::{lemma_words_le_index, lemma_words_le_len, lemma_words_le_push,
    spec_words_le};
use vstd::prelude::*;

verus! {

/// Create a window with an initial geometry, layer and fill colour.
#[derive(Debug, Clone, Copy, PartialEq, Eq, Structural)]
pub struct IcmMsgCreateWindow {
    pub window_id: u32,
    pub x: i32,
    pub y: i32,
    pub width: u32,
    pub height: u32,
    pub layer: u32,
    pub color_rgba: u32,
}

impl IcmMsgCreateWindow {
    /// The payload's wire form: 28 bytes.
    pub open spec fn spec_serialize(self) -> Seq<u8> {
        spec_u32_le(self.window_id) + spec_i32_le(self.x) + spec_i32_le(self.y) + spec_u32_le(self.width) + spec_u32_le(self.height) + spec_u32_le(self.layer) + spec_u32_le(self.color_rgba)
    }

    /// The decoder's reading of a payload held at offset `o` of `s`.
    pub open spec fn spec_matches(self, s: Seq<u8>, o: int) -> bool {
        &&& self.window_id == spec_u32_at(s, o)
        &&& self.x == spec_i32_at(s, o + 4)
        &&& self.y == spec_i32_at(s, o + 8)
        &&& self.width == spec_u32_at(s, o + 12)
        &&& self.height == spec_u32_at(s, o + 16)
        &&& self.layer == spec_u32_at(s, o + 20)
        &&& self.color_rgba == spec_u32_at(s, o + 24)
    }

    /// Encode the payload.
    pub fn serialize(&self) -> (r: Vec<u8>)
        ensures
            r@ == self.spec_serialize(),
            r@.len() == 28,
    {
        let mut buf: Vec<u8> = Vec::new();
        write_u32_le(&mut buf, self.window_id);
        write_i32_le(&mut buf, self.x);
        write_i32_le(&mut buf, self.y);
        write_u32_le(&mut buf, self.width);
        write_u32_le(&mut buf, self.height);
        write_u32_le(&mut buf, self.layer);
        write_u32_le(&mut buf, self.color_rgba);
        proof {
            assert(buf@ =~= self.spec_serialize());
        }
        buf
    }

    /// Decode a payload from the first 28 bytes of `bytes`.
    pub fn deserialize(bytes: &[u8]) -> (r: Result<(Self, usize), IpcError>)
        ensures
            match r {
                Ok((m, n)) => bytes@.len() >= 28 && n == 28 && m.spec_matches(bytes@, 0),
                Err(e) => bytes@.len() < 28 && e == IpcError::UnexpectedEnd,
            },
    {
        if bytes.len() < 28 {
            return Err(IpcError::UnexpectedEnd);
        }
        let m = Self {
            window_id: read_u32_le(bytes, 0),
            x: read_i32_le(bytes, 4),
            y: read_i32_le(bytes, 8),
            width: read_u32_le(bytes, 12),
            height: read_u32_le(bytes, 16),
            layer: read_u32_le(bytes, 20),
            color_rgba: read_u32_le(bytes, 24),
        };
        Ok((m, 28))
    }

    /// Round trip at an offset: if the bytes at `o` are `m`'s encoding,
    /// a value that matches the decoder's reading there agrees with `m`.
    pub proof fn lemma_roundtrip_at(m: Self, m2: Self, s: Seq<u8>, o: int)
        requires
            0 <= o,
            o + 28 <= s.len(),
            s.subrange(o, o + 28) == m.spec_serialize(),
            m2.spec_matches(s, o),
        ensures
            m2 == m,
    {
        let ser = m.spec_serialize();
        let sub = s.subrange(o, o + 28);
        assert(ser.len() == 28);
        assert(s[o] == sub[0] && sub[0] == ser[0]);
        assert(s[o + 1] == sub[1] && sub[1] == ser[1]);
        assert(s[o + 2] == sub[2] && sub[2] == ser[2]);
        assert(s[o + 3] == sub[3] && sub[3] == ser[3]);
        lemma_u32_le_at(s, o, m.window_id);
        assert(s[o + 4] == sub[4] && sub[4] == ser[4]);
        assert(s[o + 5] == sub[5] && sub[5] == ser[5]);
        assert(s[o + 6] == sub[6] && sub[6] == ser[6]);
        assert(s[o + 7] == sub[7] && sub[7] == ser[7]);
        lemma_i32_le_at(s, o + 4, m.x);
        assert(s[o + 8] == sub[8] && sub[8] == ser[8]);
        assert(s[o + 9] == sub[9] && sub[9] == ser[9]);
        assert(s[o + 10] == sub[10] && sub[10] == ser[10]);
        assert(s[o + 11] == sub[11] && sub[11] == ser[11]);
        lemma_i32_le_at(s, o + 8, m.y);
        assert(s[o + 12] == sub[12] && sub[12] == ser[12]);
        assert(s[o + 13] == sub[13] && sub[13] == ser[13]);
        assert(s[o + 14] == sub[14] && sub[14] == ser[14]);
        assert(s[o + 15] == sub[15] && sub[15] == ser[15]);
        lemma_u32_le_at(s, o + 12, m.width);
        assert(s[o + 16] == sub[16] && sub[16] == ser[16]);
        assert(s[o + 17] == sub[17] && sub[17] == ser[17]);
        assert(s[o + 18] == sub[18] && sub[18] == ser[18]);
        assert(s[o + 19] == sub[19] && sub[19] == ser[19]);
        lemma_u32_le_at(s, o + 16, m.height);
        assert(s[o + 20] == sub[20] && sub[20] == ser[20]);
        assert(s[o + 21] == sub[21] && sub[21] == ser[21]);
        assert(s[o + 22] == sub[22] && sub[22] == ser[22]);
        assert(s[o + 23] == sub[23] && sub[23] == ser[23]);
        lemma_u32_le_at(s, o + 20, m.layer);
        assert(s[o + 24] == sub[24] && sub[24] == ser[24]);
        assert(s[o + 25] == sub[25] && sub[25] == ser[25]);
        assert(s[o + 26] == sub[26] && sub[26] == ser[26]);
        assert(s[o + 27] == sub[27] && sub[27] == ser[27]);
        lemma_u32_le_at(s, o + 24, m.color_rgba);
    }

    /// Round trip: a value that matches the decoder's reading of `m`'s
    /// own encoding is `m` itself.
    pub proof fn lemma_roundtrip(m: Self, m2: Self)
        requires
            m2.spec_matches(m.spec_serialize(), 0),
        ensures
            m2 == m,
    {
        assert(m.spec_serialize().subrange(0, 28) =~= m.spec_serialize());
        Self::lemma_roundtrip_at(m, m2, m.spec_serialize(), 0);
    }
}

/// Show or hide a window.
#[derive(Debug, Clone, Copy, PartialEq, Eq, Structural)]
pub struct IcmMsgSetWindowVisible {
    pub window_id: u32,
    pub visible: bool,
}

impl IcmMsgSetWindowVisible {
    /// The payload's wire form: 5 bytes.
    pub open spec fn spec_serialize(self) -> Seq<u8> {
        spec_u32_le(self.window_id) + spec_bool_le(self.visible)
    }

    /// The decoder's reading of a payload held at offset `o` of `s`.
    pub open spec fn spec_matches(self, s: Seq<u8>, o: int) -> bool {
        &&& self.window_id == spec_u32_at(s, o)
        &&& self.visible == (s[o + 4] != 0)
    }

    /// Encode the payload.
    pub fn serialize(&self) -> (r: Vec<u8>)
        ensures
            r@ == self.spec_serialize(),
            r@.len() == 5,
    {
        let mut buf: Vec<u8> = Vec::new();
        write_u32_le(&mut buf, self.window_id);
        write_bool(&mut buf, self.visible);
        proof {
            assert(buf@ =~= self.spec_serialize());
        }
        buf
    }

    /// Decode a payload from the first 5 bytes of `bytes`.
    pub fn deserialize(bytes: &[u8]) -> (r: Result<(Self, usize), IpcError>)
        ensures
            match r {
                Ok((m, n)) => bytes@.len() >= 5 && n == 5 && m.spec_matches(bytes@, 0),
                Err(e) => bytes@.len() < 5 && e == IpcError::UnexpectedEnd,
            },
    {
        if bytes.len() < 5 {
            return Err(IpcError::UnexpectedEnd);
        }
        let m = Self {
            window_id: read_u32_le(bytes, 0),
            visible: read_byte(bytes, 4) != 0,
        };
        Ok((m, 5))
    }

    /// Round trip at an offset: if the bytes at `o` are `m`'s encoding,
    /// a value that matches the decoder's reading there agrees with `m`.
    pub proof fn lemma_roundtrip_at(m: Self, m2: Self, s: Seq<u8>, o: int)
        requires
            0 <= o,
            o + 5 <= s.len(),
            s.subrange(o, o + 5) == m.spec_serialize(),
            m2.spec_matches(s, o),
        ensures
            m2 == m,
    {
        let ser = m.spec_serialize();
        let sub = s.subrange(o, o + 5);
        assert(ser.len() == 5);
        assert(s[o] == sub[0] && sub[0] == ser[0]);
        assert(s[o + 1] == sub[1] && sub[1] == ser[1]);
        assert(s[o + 2] == sub[2] && sub[2] == ser[2]);
        assert(s[o + 3] == sub[3] && sub[3] == ser[3]);
        lemma_u32_le_at(s, o, m.window_id);
        assert(s[o + 4] == sub[4] && sub[4] == ser[4]);
        assert(s[o + 4] == (if m.visible { 1u8 } else { 0u8 }));
    }

    /// Round trip: a value that matches the decoder's reading of `m`'s
    /// own encoding is `m` itself.
    pub proof fn lemma_roundtrip(m: Self, m2: Self)
        requires
            m2.spec_matches(m.spec_serialize(), 0),
        ensures
            m2 == m,
    {
        assert(m.spec_serialize().subrange(0, 5) =~= m.spec_serialize());
        Self::lemma_roundtrip_at(m, m2, m.spec_serialize(), 0);
    }
}

/// Compositor event: a window came into existence.
#[derive(Debug, Clone, Copy, PartialEq, Eq, Structural)]
pub struct IcmMsgWindowCreated {
    pub window_id: u32,
    pub width: u32,
    pub height: u32,
    pub decorated: bool,
    pub focused: bool,
}

impl IcmMsgWindowCreated {
    /// The payload's wire form: 14 bytes.
    pub open spec fn spec_serialize(self) -> Seq<u8> {
        spec_u32_le(self.window_id) + spec_u32_le(self.width) + spec_u32_le(self.height) + spec_bool_le(self.decorated) + spec_bool_le(self.focused)
    }

    /// The decoder's reading of a payload held at offset `o` of `s`.
    pub open spec fn spec_matches(self, s: Seq<u8>, o: int) -> bool {
        &&& self.window_id == spec_u32_at(s, o)
        &&& self.width == spec_u32_at(s, o + 4)
        &&& self.height == spec_u32_at(s, o + 8)
        &&& self.decorated == (s[o + 12] != 0)
        &&& self.focused == (s[o + 13] != 0)
    }

    /// Encode the payload.
    pub fn serialize(&self) -> (r: Vec<u8>)
        ensures
            r@ == self.spec_serialize(),
            r@.len() == 14,
    {
        let mut buf: Vec<u8> = Vec::new();
        write_u32_le(&mut buf, self.window_id);
        write_u32_le(&mut buf, self.width);
        write_u32_le(&mut buf, self.height);
        write_bool(&mut buf, self.decorated);
        write_bool(&mut buf, self.focused);
        proof {
            assert(buf@ =~= self.spec_serialize());
        }
        buf
    }

    /// Decode a payload from the first 14 bytes of `bytes`.
    pub fn deserialize(bytes: &[u8]) -> (r: Result<(Self, usize), IpcError>)
        ensures
            match r {
                Ok((m, n)) => bytes@.len() >= 14 && n == 14 && m.spec_matches(bytes@, 0),
                Err(e) => bytes@.len() < 14 && e == IpcError::UnexpectedEnd,
            },
    {
        if bytes.len() < 14 {
            return Err(IpcError::UnexpectedEnd);
        }
        let m = Self {
            window_id: read_u32_le(bytes, 0),
            width: read_u32_le(bytes, 4),
            height: read_u32_le(bytes, 8),
            decorated: read_byte(bytes, 12) != 0,
            focused: read_byte(bytes, 13) != 0,
        };
        Ok((m, 14))
    }

    /// Round trip at an offset: if the bytes at `o` are `m`'s encoding,
    /// a value that matches the decoder's reading there agrees with `m`.
    pub proof fn lemma_roundtrip_at(m: Self, m2: Self, s: Seq<u8>, o: int)
        requires
            0 <= o,
            o + 14 <= s.len(),
            s.subrange(o, o + 14) == m.spec_serialize(),
            m2.spec_matches(s, o),
        ensures
            m2 == m,
    {
        let ser = m.spec_serialize();
        let sub = s.subrange(o, o + 14);
        assert(ser.len() == 14);
        assert(s[o] == sub[0] && sub[0] == ser[0]);
        assert(s[o + 1] == sub[1] && sub[1] == ser[1]);
        assert(s[o + 2] == sub[2] && sub[2] == ser[2]);
        assert(s[o + 3] == sub[3] && sub[3] == ser[3]);
        lemma_u32_le_at(s, o, m.window_id);
        assert(s[o + 4] == sub[4] && sub[4] == ser[4]);
        assert(s[o + 5] == sub[5] && sub[5] == ser[5]);
        assert(s[o + 6] == sub[6] && sub[6] == ser[6]);
        assert(s[o + 7] == sub[7] && sub[7] == ser[7]);
        lemma_u32_le_at(s, o + 4, m.width);
        assert(s[o + 8] == sub[8] && sub[8] == ser[8]);
        assert(s[o + 9] == sub[9] && sub[9] == ser[9]);
        assert(s[o + 10] == sub[10] && sub[10] == ser[10]);
        assert(s[o + 11] == sub[11] && sub[11] == ser[11]);
        lemma_u32_le_at(s, o + 8, m.height);
        assert(s[o + 12] == sub[12] && sub[12] == ser[12]);
        assert(s[o + 12] == (if m.decorated { 1u8 } else { 0u8 }));
        assert(s[o + 13] == sub[13] && sub[13] == ser[13]);
        assert(s[o + 13] == (if m.focused { 1u8 } else { 0u8 }));
    }

    /// Round trip: a value that matches the decoder's reading of `m`'s
    /// own encoding is `m` itself.
    pub proof fn lemma_roundtrip(m: Self, m2: Self)
        requires
            m2.spec_matches(m.spec_serialize(), 0),
        ensures
            m2 == m,
    {
        assert(m.spec_serialize().subrange(0, 14) =~= m.spec_serialize());
        Self::lemma_roundtrip_at(m, m2, m.spec_serialize(), 0);
    }
}

/// Compositor event: a window was destroyed.
#[derive(Debug, Clone, Copy, PartialEq, Eq, Structural)]
pub struct IcmMsgWindowDestroyed {
    pub window_id: u32,
}

impl IcmMsgWindowDestroyed {
    /// The payload's wire form: 4 bytes.
    pub open spec fn spec_serialize(self) -> Seq<u8> {
        spec_u32_le(self.window_id)
    }

    /// The decoder's reading of a payload held at offset `o` of `s`.
    pub open spec fn spec_matches(self, s: Seq<u8>, o: int) -> bool {
        &&& self.window_id == spec_u32_at(s, o)
    }

    /// Encode the payload.
    pub fn serialize(&self) -> (r: Vec<u8>)
        ensures
            r@ == self.spec_serialize(),
            r@.len() == 4,
    {
        let mut buf: Vec<u8> = Vec::new();
        write_u32_le(&mut buf, self.window_id);
        proof {
            assert(buf@ =~= self.spec_serialize());
        }
        buf
    }

    /// Decode a payload from the first 4 bytes of `bytes`.
    pub fn deserialize(bytes: &[u8]) -> (r: Result<(Self, usize), IpcError>)
        ensures
            match r {
                Ok((m, n)) => bytes@.len() >= 4 && n == 4 && m.spec_matches(bytes@, 0),
                Err(e) => bytes@.len() < 4 && e == IpcError::UnexpectedEnd,
            },
    {
        if bytes.len() < 4 {
            return Err(IpcError::UnexpectedEnd);
        }
        let m = Self {
            window_id: read_u32_le(bytes, 0),
        };
        Ok((m, 4))
    }

    /// Round trip at an offset: if the bytes at `o` are `m`'s encoding,
    /// a value that matches the decoder's reading there agrees with `m`.
    pub proof fn lemma_roundtrip_at(m: Self, m2: Self, s: Seq<u8>, o: int)
        requires
            0 <= o,
            o + 4 <= s.len(),
            s.subrange(o, o + 4) == m.spec_serialize(),
            m2.spec_matches(s, o),
        ensures
            m2 == m,
    {
        let ser = m.spec_serialize();
        let sub = s.subrange(o, o + 4);
        assert(ser.len() == 4);
        assert(s[o] == sub[0] && sub[0] == ser[0]);
        assert(s[o + 1] == sub[1] && sub[1] == ser[1]);
        assert(s[o + 2] == sub[2] && sub[2] == ser[2]);
        assert(s[o + 3] == sub[3] && sub[3] == ser[3]);
        lemma_u32_le_at(s, o, m.window_id);
    }

    /// Round trip: a value that matches the decoder's reading of `m`'s
    /// own encoding is `m` itself.
    pub proof fn lemma_roundtrip(m: Self, m2: Self)
        requires
            m2.spec_matches(m.spec_serialize(), 0),
        ensures
            m2 == m,
    {
        assert(m.spec_serialize().subrange(0, 4) =~= m.spec_serialize());
        Self::lemma_roundtrip_at(m, m2, m.spec_serialize(), 0);
    }
}

/// Move a window to an absolute position.
#[derive(Debug, Clone, Copy, PartialEq, Eq, Structural)]
pub struct IcmMsgSetWindowPosition {
    pub window_id: u32,
    pub x: i32,
    pub y: i32,
}

impl IcmMsgSetWindowPosition {
    /// The payload's wire form: 12 bytes.
    pub open spec fn spec_serialize(self) -> Seq<u8> {
        spec_u32_le(self.window_id) + spec_i32_le(self.x) + spec_i32_le(self.y)
    }

    /// The decoder's reading of a payload held at offset `o` of `s`.
    pub open spec fn spec_matches(self, s: Seq<u8>, o: int) -> bool {
        &&& self.window_id == spec_u32_at(s, o)
        &&& self.x == spec_i32_at(s, o + 4)
        &&& self.y == spec_i32_at(s, o + 8)
    }

    /// Encode the payload.
    pub fn serialize(&self) -> (r: Vec<u8>)
        ensures
            r@ == self.spec_serialize(),
            r@.len() == 12,
    {
        let mut buf: Vec<u8> = Vec::new();
        write_u32_le(&mut buf, self.window_id);
        write_i32_le(&mut buf, self.x);
        write_i32_le(&mut buf, self.y);
        proof {
            assert(buf@ =~= self.spec_serialize());
        }
        buf
    }

    /// Decode a payload from the first 12 bytes of `bytes`.
    pub fn deserialize(bytes: &[u8]) -> (r: Result<(Self, usize), IpcError>)
        ensures
            match r {
                Ok((m, n)) => bytes@.len() >= 12 && n == 12 && m.spec_matches(bytes@, 0),
                Err(e) => bytes@.len() < 12 && e == IpcError::UnexpectedEnd,
            },
    {
        if bytes.len() < 12 {
            return Err(IpcError::UnexpectedEnd);
        }
        let m = Self {
            window_id: read_u32_le(bytes, 0),
            x: read_i32_le(bytes, 4),
            y: read_i32_le(bytes, 8),
        };
        Ok((m, 12))
    }

    /// Round trip at an offset: if the bytes at `o` are `m`'s encoding,
    /// a value that matches the decoder's reading there agrees with `m`.
    pub proof fn lemma_roundtrip_at(m: Self, m2: Self, s: Seq<u8>, o: int)
        requires
            0 <= o,
            o + 12 <= s.len(),
            s.subrange(o, o + 12) == m.spec_serialize(),
            m2.spec_matches(s, o),
        ensures
            m2 == m,
    {
        let ser = m.spec_serialize();
        let sub = s.subrange(o, o + 12);
        assert(ser.len() == 12);
        assert(s[o] == sub[0] && sub[0] == ser[0]);
        assert(s[o + 1] == sub[1] && sub[1] == ser[1]);
        assert(s[o + 2] == sub[2] && sub[2] == ser[2]);
        assert(s[o + 3] == sub[3] && sub[3] == ser[3]);
        lemma_u32_le_at(s, o, m.window_id);
        assert(s[o + 4] == sub[4] && sub[4] == ser[4]);
        assert(s[o + 5] == sub[5] && sub[5] == ser[5]);
        assert(s[o + 6] == sub[6] && sub[6] == ser[6]);
        assert(s[o + 7] == sub[7] && sub[7] == ser[7]);
        lemma_i32_le_at(s, o + 4, m.x);
        assert(s[o + 8] == sub[8] && sub[8] == ser[8]);
        assert(s[o + 9] == sub[9] && sub[9] == ser[9]);
        assert(s[o + 10] == sub[10] && sub[10] == ser[10]);
        assert(s[o + 11] == sub[11] && sub[11] == ser[11]);
        lemma_i32_le_at(s, o + 8, m.y);
    }

    /// Round trip: a value that matches the decoder's reading of `m`'s
    /// own encoding is `m` itself.
    pub proof fn lemma_roundtrip(m: Self, m2: Self)
        requires
            m2.spec_matches(m.spec_serialize(), 0),
        ensures
            m2 == m,
    {
        assert(m.spec_serialize().subrange(0, 12) =~= m.spec_serialize());
        Self::lemma_roundtrip_at(m, m2, m.spec_serialize(), 0);
    }
}

/// Resize a window.
#[derive(Debug, Clone, Copy, PartialEq, Eq, Structural)]
pub struct IcmMsgSetWindowSize {
    pub window_id: u32,
    pub width: u32,
    pub height: u32,
}

impl IcmMsgSetWindowSize {
    /// The payload's wire form: 12 bytes.
    pub open spec fn spec_serialize(self) -> Seq<u8> {
        spec_u32_le(self.window_id) + spec_u32_le(self.width) + spec_u32_le(self.height)
    }

    /// The decoder's reading of a payload held at offset `o` of `s`.
    pub open spec fn spec_matches(self, s: Seq<u8>, o: int) -> bool {
        &&& self.window_id == spec_u32_at(s, o)
        &&& self.width == spec_u32_at(s, o + 4)
        &&& self.height == spec_u32_at(s, o + 8)
    }

    /// Encode the payload.
    pub fn serialize(&self) -> (r: Vec<u8>)
        ensures
            r@ == self.spec_serialize(),
            r@.len() == 12,
    {
        let mut buf: Vec<u8> = Vec::new();
        write_u32_le(&mut buf, self.window_id);
        write_u32_le(&mut buf, self.width);
        write_u32_le(&mut buf, self.height);
        proof {
            assert(buf@ =~= self.spec_serialize());
        }
        buf
    }

    /// Decode a payload from the first 12 bytes of `bytes`.
    pub fn deserialize(bytes: &[u8]) -> (r: Result<(Self, usize), IpcError>)
        ensures
            match r {
                Ok((m, n)) => bytes@.len() >= 12 && n == 12 && m.spec_matches(bytes@, 0),
                Err(e) => bytes@.len() < 12 && e == IpcError::UnexpectedEnd,
            },
    {
        if bytes.len() < 12 {
            return Err(IpcError::UnexpectedEnd);
        }
        let m = Self {
            window_id: read_u32_le(bytes, 0),
            width: read_u32_le(bytes, 4),
            height: read_u32_le(bytes, 8),
        };
        Ok((m, 12))
    }

    /// Round trip at an offset: if the bytes at `o` are `m`'s encoding,
    /// a value that matches the decoder's reading there agrees with `m`.
    pub proof fn lemma_roundtrip_at(m: Self, m2: Self, s: Seq<u8>, o: int)
        requires
            0 <= o,
            o + 12 <= s.len(),
            s.subrange(o, o + 12) == m.spec_serialize(),
            m2.spec_matches(s, o),
        ensures
            m2 == m,
    {
        let ser = m.spec_serialize();
        let sub = s.subrange(o, o + 12);
        assert(ser.len() == 12);
        assert(s[o] == sub[0] && sub[0] == ser[0]);
        assert(s[o + 1] == sub[1] && sub[1] == ser[1]);
        assert(s[o + 2] == sub[2] && sub[2] == ser[2]);
        assert(s[o + 3] == sub[3] && sub[3] == ser[3]);
        lemma_u32_le_at(s, o, m.window_id);
        assert(s[o + 4] == sub[4] && sub[4] == ser[4]);
        assert(s[o + 5] == sub[5] && sub[5] == ser[5]);
        assert(s[o + 6] == sub[6] && sub[6] == ser[6]);
        assert(s[o + 7] == sub[7] && sub[7] == ser[7]);
        lemma_u32_le_at(s, o + 4, m.width);
        assert(s[o + 8] == sub[8] && sub[8] == ser[8]);
        assert(s[o + 9] == sub[9] && sub[9] == ser[9]);
        assert(s[o + 10] == sub[10] && sub[10] == ser[10]);
        assert(s[o + 11] == sub[11] && sub[11] == ser[11]);
        lemma_u32_le_at(s, o + 8, m.height);
    }

    /// Round trip: a value that matches the decoder's reading of `m`'s
    /// own encoding is `m` itself.
    pub proof fn lemma_roundtrip(m: Self, m2: Self)
        requires
            m2.spec_matches(m.spec_serialize(), 0),
        ensures
            m2 == m,
    {
        assert(m.spec_serialize().subrange(0, 12) =~= m.spec_serialize());
        Self::lemma_roundtrip_at(m, m2, m.spec_serialize(), 0);
    }
}

/// Set a window's opacity (an `f32` bit pattern).
#[derive(Debug, Clone, Copy, PartialEq, Eq, Structural)]
pub struct IcmMsgSetWindowOpacity {
    pub window_id: u32,
    pub opacity: u32,
}

impl IcmMsgSetWindowOpacity {
    /// The payload's wire form: 8 bytes.
    pub open spec fn spec_serialize(self) -> Seq<u8> {
        spec_u32_le(self.window_id) + spec_u32_le(self.opacity)
    }

    /// The decoder's reading of a payload held at offset `o` of `s`.
    pub open spec fn spec_matches(self, s: Seq<u8>, o: int) -> bool {
        &&& self.window_id == spec_u32_at(s, o)
        &&& self.opacity == spec_u32_at(s, o + 4)
    }

    /// Encode the payload.
    pub fn serialize(&self) -> (r: Vec<u8>)
        ensures
            r@ == self.spec_serialize(),
            r@.len() == 8,
    {
        let mut buf: Vec<u8> = Vec::new();
        write_u32_le(&mut buf, self.window_id);
        write_u32_le(&mut buf, self.opacity);
        proof {
            assert(buf@ =~= self.spec_serialize());
        }
        buf
    }

    /// Decode a payload from the first 8 bytes of `bytes`.
    pub fn deserialize(bytes: &[u8]) -> (r: Result<(Self, usize), IpcError>)
        ensures
            match r {
                Ok((m, n)) => bytes@.len() >= 8 && n == 8 && m.spec_matches(bytes@, 0),
                Err(e) => bytes@.len() < 8 && e == IpcError::UnexpectedEnd,
            },
    {
        if bytes.len() < 8 {
            return Err(IpcError::UnexpectedEnd);
        }
        let m = Self {
            window_id: read_u32_le(bytes, 0),
            opacity: read_u32_le(bytes, 4),
        };
        Ok((m, 8))
    }

    /// Round trip at an offset: if the bytes at `o` are `m`'s encoding,
    /// a value that matches the decoder's reading there agrees with `m`.
    pub proof fn lemma_roundtrip_at(m: Self, m2: Self, s: Seq<u8>, o: int)
        requires
            0 <= o,
            o + 8 <= s.len(),
            s.subrange(o, o + 8) == m.spec_serialize(),
            m2.spec_matches(s, o),
        ensures
            m2 == m,
    {
        let ser = m.spec_serialize();
        let sub = s.subrange(o, o + 8);
        assert(ser.len() == 8);
        assert(s[o] == sub[0] && sub[0] == ser[0]);
        assert(s[o + 1] == sub[1] && sub[1] == ser[1]);
        assert(s[o + 2] == sub[2] && sub[2] == ser[2]);
        assert(s[o + 3] == sub[3] && sub[3] == ser[3]);
        lemma_u32_le_at(s, o, m.window_id);
        assert(s[o + 4] == sub[4] && sub[4] == ser[4]);
        assert(s[o + 5] == sub[5] && sub[5] == ser[5]);
        assert(s[o + 6] == sub[6] && sub[6] == ser[6]);
        assert(s[o + 7] == sub[7] && sub[7] == ser[7]);
        lemma_u32_le_at(s, o + 4, m.opacity);
    }

    /// Round trip: a value that matches the decoder's reading of `m`'s
    /// own encoding is `m` itself.
    pub proof fn lemma_roundtrip(m: Self, m2: Self)
        requires
            m2.spec_matches(m.spec_serialize(), 0),
        ensures
            m2 == m,
    {
        assert(m.spec_serialize().subrange(0, 8) =~= m.spec_serialize());
        Self::lemma_roundtrip_at(m, m2, m.spec_serialize(), 0);
    }
}

/// Enable or disable background blur behind a window.
#[derive(Debug, Clone, Copy, PartialEq, Eq, Structural)]
pub struct IcmMsgSetWindowBlur {
    pub window_id: u32,
    pub blur_radius: u32,
    pub enabled: bool,
}

impl IcmMsgSetWindowBlur {
    /// The payload's wire form: 9 bytes.
    pub open spec fn spec_serialize(self) -> Seq<u8> {
        spec_u32_le(self.window_id) + spec_u32_le(self.blur_radius) + spec_bool_le(self.enabled)
    }

    /// The decoder's reading of a payload held at offset `o` of `s`.
    pub open spec fn spec_matches(self, s: Seq<u8>, o: int) -> bool {
        &&& self.window_id == spec_u32_at(s, o)
        &&& self.blur_radius == spec_u32_at(s, o + 4)
        &&& self.enabled == (s[o + 8] != 0)
    }

    /// Encode the payload.
    pub fn serialize(&self) -> (r: Vec<u8>)
        ensures
            r@ == self.spec_serialize(),
            r@.len() == 9,
    {
        let mut buf: Vec<u8> = Vec::new();
        write_u32_le(&mut buf, self.window_id);
        write_u32_le(&mut buf, self.blur_radius);
        write_bool(&mut buf, self.enabled);
        proof {
            assert(buf@ =~= self.spec_serialize());
        }
        buf
    }

    /// Decode a payload from the first 9 bytes of `bytes`.
    pub fn deserialize(bytes: &[u8]) -> (r: Result<(Self, usize), IpcError>)
        ensures
            match r {
                Ok((m, n)) => bytes@.len() >= 9 && n == 9 && m.spec_matches(bytes@, 0),
                Err(e) => bytes@.len() < 9 && e == IpcError::UnexpectedEnd,
            },
    {
        if bytes.len() < 9 {
            return Err(IpcError::UnexpectedEnd);
        }
        let m = Self {
            window_id: read_u32_le(bytes, 0),
            blur_radius: read_u32_le(bytes, 4),
            enabled: read_byte(bytes, 8) != 0,
        };
        Ok((m, 9))
    }

    /// Round trip at an offset: if the bytes at `o` are `m`'s encoding,
    /// a value that matches the decoder's reading there agrees with `m`.
    pub proof fn lemma_roundtrip_at(m: Self, m2: Self, s: Seq<u8>, o: int)
        requires
            0 <= o,
            o + 9 <= s.len(),
            s.subrange(o, o + 9) == m.spec_serialize(),
            m2.spec_matches(s, o),
        ensures
            m2 == m,
    {
        let ser = m.spec_serialize();
        let sub = s.subrange(o, o + 9);
        assert(ser.len() == 9);
        assert(s[o] == sub[0] && sub[0] == ser[0]);
        assert(s[o + 1] == sub[1] && sub[1] == ser[1]);
        assert(s[o + 2] == sub[2] && sub[2] == ser[2]);
        assert(s[o + 3] == sub[3] && sub[3] == ser[3]);
        lemma_u32_le_at(s, o, m.window_id);
        assert(s[o + 4] == sub[4] && sub[4] == ser[4]);
        assert(s[o + 5] == sub[5] && sub[5] == ser[5]);
        assert(s[o + 6] == sub[6] && sub[6] == ser[6]);
        assert(s[o + 7] == sub[7] && sub[7] == ser[7]);
        lemma_u32_le_at(s, o + 4, m.blur_radius);
        assert(s[o + 8] == sub[8] && sub[8] == ser[8]);
        assert(s[o + 8] == (if m.enabled { 1u8 } else { 0u8 }));
    }

    /// Round trip: a value that matches the decoder's reading of `m`'s
    /// own encoding is `m` itself.
    pub proof fn lemma_roundtrip(m: Self, m2: Self)
        requires
            m2.spec_matches(m.spec_serialize(), 0),
        ensures
            m2 == m,
    {
        assert(m.spec_serialize().subrange(0, 9) =~= m.spec_serialize());
        Self::lemma_roundtrip_at(m, m2, m.spec_serialize(), 0);
    }
}

/// Set a window's 2-D scale and rotation.
#[derive(Debug, Clone, Copy, PartialEq, Eq, Structural)]
pub struct IcmMsgSetWindowTransform {
    pub window_id: u32,
    pub scale_x: u32,
    pub scale_y: u32,
    pub rotation: u32,
}

impl IcmMsgSetWindowTransform {
    /// The payload's wire form: 16 bytes.
    pub open spec fn spec_serialize(self) -> Seq<u8> {
        spec_u32_le(self.window_id) + spec_u32_le(self.scale_x) + spec_u32_le(self.scale_y) + spec_u32_le(self.rotation)
    }

    /// The decoder's reading of a payload held at offset `o` of `s`.
    pub open spec fn spec_matches(self, s: Seq<u8>, o: int) -> bool {
        &&& self.window_id == spec_u32_at(s, o)
        &&& self.scale_x == spec_u32_at(s, o + 4)
        &&& self.scale_y == spec_u32_at(s, o + 8)
        &&& self.rotation == spec_u32_at(s, o + 12)
    }

    /// Encode the payload.
    pub fn serialize(&self) -> (r: Vec<u8>)
        ensures
            r@ == self.spec_serialize(),
            r@.len() == 16,
    {
        let mut buf: Vec<u8> = Vec::new();
        write_u32_le(&mut buf, self.window_id);
        write_u32_le(&mut buf, self.scale_x);
        write_u32_le(&mut buf, self.scale_y);
        write_u32_le(&mut buf, self.rotation);
        proof {
            assert(buf@ =~= self.spec_serialize());
        }
        buf
    }

    /// Decode a payload from the first 16 bytes of `bytes`.
    pub fn deserialize(bytes: &[u8]) -> (r: Result<(Self, usize), IpcError>)
        ensures
            match r {
                Ok((m, n)) => bytes@.len() >= 16 && n == 16 && m.spec_matches(bytes@, 0),
                Err(e) => bytes@.len() < 16 && e == IpcError::UnexpectedEnd,
            },
    {
        if bytes.len() < 16 {
            return Err(IpcError::UnexpectedEnd);
        }
        let m = Self {
            window_id: read_u32_le(bytes, 0),
            scale_x: read_u32_le(bytes, 4),
            scale_y: read_u32_le(bytes, 8),
            rotation: read_u32_le(bytes, 12),
        };
        Ok((m, 16))
    }

    /// Round trip at an offset: if the bytes at `o` are `m`'s encoding,
    /// a value that matches the decoder's reading there agrees with `m`.
    pub proof fn lemma_roundtrip_at(m: Self, m2: Self, s: Seq<u8>, o: int)
        requires
            0 <= o,
            o + 16 <= s.len(),
            s.subrange(o, o + 16) == m.spec_serialize(),
            m2.spec_matches(s, o),
        ensures
            m2 == m,
    {
        let ser = m.spec_serialize();
        let sub = s.subrange(o, o + 16);
        assert(ser.len() == 16);
        assert(s[o] == sub[0] && sub[0] == ser[0]);
        assert(s[o + 1] == sub[1] && sub[1] == ser[1]);
        assert(s[o + 2] == sub[2] && sub[2] == ser[2]);
        assert(s[o + 3] == sub[3] && sub[3] == ser[3]);
        lemma_u32_le_at(s, o, m.window_id);
        assert(s[o + 4] == sub[4] && sub[4] == ser[4]);
        assert(s[o + 5] == sub[5] && sub[5] == ser[5]);
        assert(s[o + 6] == sub[6] && sub[6] == ser[6]);
        assert(s[o + 7] == sub[7] && sub[7] == ser[7]);
        lemma_u32_le_at(s, o + 4, m.scale_x);
        assert(s[o + 8] == sub[8] && sub[8] == ser[8]);
        assert(s[o + 9] == sub[9] && sub[9] == ser[9]);
        assert(s[o + 10] == sub[10] && sub[10] == ser[10]);
        assert(s[o + 11] == sub[11] && sub[11] == ser[11]);
        lemma_u32_le_at(s, o + 8, m.scale_y);
        assert(s[o + 12] == sub[12] && sub[12] == ser[12]);
        assert(s[o + 13] == sub[13] && sub[13] == ser[13]);
        assert(s[o + 14] == sub[14] && sub[14] == ser[14]);
        assert(s[o + 15] == sub[15] && sub[15] == ser[15]);
        lemma_u32_le_at(s, o + 12, m.rotation);
    }

    /// Round trip: a value that matches the decoder's reading of `m`'s
    /// own encoding is `m` itself.
    pub proof fn lemma_roundtrip(m: Self, m2: Self)
        requires
            m2.spec_matches(m.spec_serialize(), 0),
        ensures
            m2 == m,
    {
        assert(m.spec_serialize().subrange(0, 16) =~= m.spec_serialize());
        Self::lemma_roundtrip_at(m, m2, m.spec_serialize(), 0);
    }
}

/// Move a window to a stacking layer.
#[derive(Debug, Clone, Copy, PartialEq, Eq, Structural)]
pub struct IcmMsgSetWindowLayer {
    pub window_id: u32,
    pub layer: i32,
}

impl IcmMsgSetWindowLayer {
    /// The payload's wire form: 8 bytes.
    pub open spec fn spec_serialize(self) -> Seq<u8> {
        spec_u32_le(self.window_id) + spec_i32_le(self.layer)
    }

    /// The decoder's reading of a payload held at offset `o` of `s`.
    pub open spec fn spec_matches(self, s: Seq<u8>, o: int) -> bool {
        &&& self.window_id == spec_u32_at(s, o)
        &&& self.layer == spec_i32_at(s, o + 4)
    }

    /// Encode the payload.
    pub fn serialize(&self) -> (r: Vec<u8>)
        ensures
            r@ == self.spec_serialize(),
            r@.len() == 8,
    {
        let mut buf: Vec<u8> = Vec::new();
        write_u32_le(&mut buf, self.window_id);
        write_i32_le(&mut buf, self.layer);
        proof {
            assert(buf@ =~= self.spec_serialize());
        }
        buf
    }

    /// Decode a payload from the first 8 bytes of `bytes`.
    pub fn deserialize(bytes: &[u8]) -> (r: Result<(Self, usize), IpcError>)
        ensures
            match r {
                Ok((m, n)) => bytes@.len() >= 8 && n == 8 && m.spec_matches(bytes@, 0),
                Err(e) => bytes@.len() < 8 && e == IpcError::UnexpectedEnd,
            },
    {
        if bytes.len() < 8 {
            return Err(IpcError::UnexpectedEnd);
        }
        let m = Self {
            window_id: read_u32_le(bytes, 0),
            layer: read_i32_le(bytes, 4),
        };
        Ok((m, 8))
    }

    /// Round trip at an offset: if the bytes at `o` are `m`'s encoding,
    /// a value that matches the decoder's reading there agrees with `m`.
    pub proof fn lemma_roundtrip_at(m: Self, m2: Self, s: Seq<u8>, o: int)
        requires
            0 <= o,
            o + 8 <= s.len(),
            s.subrange(o, o + 8) == m.spec_serialize(),
            m2.spec_matches(s, o),
        ensures
            m2 == m,
    {
        let ser = m.spec_serialize();
        let sub = s.subrange(o, o + 8);
        assert(ser.len() == 8);
        assert(s[o] == sub[0] && sub[0] == ser[0]);
        assert(s[o + 1] == sub[1] && sub[1] == ser[1]);
        assert(s[o + 2] == sub[2] && sub[2] == ser[2]);
        assert(s[o + 3] == sub[3] && sub[3] == ser[3]);
        lemma_u32_le_at(s, o, m.window_id);
        assert(s[o + 4] == sub[4] && sub[4] == ser[4]);
        assert(s[o + 5] == sub[5] && sub[5] == ser[5]);
        assert(s[o + 6] == sub[6] && sub[6] == ser[6]);
        assert(s[o + 7] == sub[7] && sub[7] == ser[7]);
        lemma_i32_le_at(s, o + 4, m.layer);
    }

    /// Round trip: a value that matches the decoder's reading of `m`'s
    /// own encoding is `m` itself.
    pub proof fn lemma_roundtrip(m: Self, m2: Self)
        requires
            m2.spec_matches(m.spec_serialize(), 0),
        ensures
            m2 == m,
    {
        assert(m.spec_serialize().subrange(0, 8) =~= m.spec_serialize());
        Self::lemma_roundtrip_at(m, m2, m.spec_serialize(), 0);
    }
}

/// Raise a window within its layer.
#[derive(Debug, Clone, Copy, PartialEq, Eq, Structural)]
pub struct IcmMsgRaiseWindow {
    pub window_id: u32,
}

impl IcmMsgRaiseWindow {
    /// The payload's wire form: 4 bytes.
    pub open spec fn spec_serialize(self) -> Seq<u8> {
        spec_u32_le(self.window_id)
    }

    /// The decoder's reading of a payload held at offset `o` of `s`.
    pub open spec fn spec_matches(self, s: Seq<u8>, o: int) -> bool {
        &&& self.window_id == spec_u32_at(s, o)
    }

    /// Encode the payload.
    pub fn serialize(&self) -> (r: Vec<u8>)
        ensures
            r@ == self.spec_serialize(),
            r@.len() == 4,
    {
        let mut buf: Vec<u8> = Vec::new();
        write_u32_le(&mut buf, self.window_id);
        proof {
            assert(buf@ =~= self.spec_serialize());
        }
        buf
    }

    /// Decode a payload from the first 4 bytes of `bytes`.
    pub fn deserialize(bytes: &[u8]) -> (r: Result<(Self, usize), IpcError>)
        ensures
            match r {
                Ok((m, n)) => bytes@.len() >= 4 && n == 4 && m.spec_matches(bytes@, 0),
                Err(e) => bytes@.len() < 4 && e == IpcError::UnexpectedEnd,
            },
    {
        if bytes.len() < 4 {
            return Err(IpcError::UnexpectedEnd);
        }
        let m = Self {
            window_id: read_u32_le(bytes, 0),
        };
        Ok((m, 4))
    }

    /// Round trip at an offset: if the bytes at `o` are `m`'s encoding,
    /// a value that matches the decoder's reading there agrees with `m`.
    pub proof fn lemma_roundtrip_at(m: Self, m2: Self, s: Seq<u8>, o: int)
        requires
            0 <= o,
            o + 4 <= s.len(),
            s.subrange(o, o + 4) == m.spec_serialize(),
            m2.spec_matches(s, o),
        ensures
            m2 == m,
    {
        let ser = m.spec_serialize();
        let sub = s.subrange(o, o + 4);
        assert(ser.len() == 4);
        assert(s[o] == sub[0] && sub[0] == ser[0]);
        assert(s[o + 1] == sub[1] && sub[1] == ser[1]);
        assert(s[o + 2] == sub[2] && sub[2] == ser[2]);
        assert(s[o + 3] == sub[3] && sub[3] == ser[3]);
        lemma_u32_le_at(s, o, m.window_id);
    }

    /// Round trip: a value that matches the decoder's reading of `m`'s
    /// own encoding is `m` itself.
    pub proof fn lemma_roundtrip(m: Self, m2: Self)
        requires
            m2.spec_matches(m.spec_serialize(), 0),
        ensures
            m2 == m,
    {
        assert(m.spec_serialize().subrange(0, 4) =~= m.spec_serialize());
        Self::lemma_roundtrip_at(m, m2, m.spec_serialize(), 0);
    }
}

/// Lower a window within its layer.
#[derive(Debug, Clone, Copy, PartialEq, Eq, Structural)]
pub struct IcmMsgLowerWindow {
    pub window_id: u32,
}

impl IcmMsgLowerWindow {
    /// The payload's wire form: 4 bytes.
    pub open spec fn spec_serialize(self) -> Seq<u8> {
        spec_u32_le(self.window_id)
    }

    /// The decoder's reading of a payload held at offset `o` of `s`.
    pub open spec fn spec_matches(self, s: Seq<u8>, o: int) -> bool {
        &&& self.window_id == spec_u32_at(s, o)
    }

    /// Encode the payload.
    pub fn serialize(&self) -> (r: Vec<u8>)
        ensures
            r@ == self.spec_serialize(),
            r@.len() == 4,
    {
        let mut buf: Vec<u8> = Vec::new();
        write_u32_le(&mut buf, self.window_id);
        proof {
            assert(buf@ =~= self.spec_serialize());
        }
        buf
    }

    /// Decode a payload from the first 4 bytes of `bytes`.
    pub fn deserialize(bytes: &[u8]) -> (r: Result<(Self, usize), IpcError>)
        ensures
            match r {
                Ok((m, n)) => bytes@.len() >= 4 && n == 4 && m.spec_matches(bytes@, 0),
                Err(e) => bytes@.len() < 4 && e == IpcError::UnexpectedEnd,
            },
    {
        if bytes.len() < 4 {
            return Err(IpcError::UnexpectedEnd);
        }
        let m = Self {
            window_id: read_u32_le(bytes, 0),
        };
        Ok((m, 4))
    }

    /// Round trip at an offset: if the bytes at `o` are `m`'s encoding,
    /// a value that matches the decoder's reading there agrees with `m`.
    pub proof fn lemma_roundtrip_at(m: Self, m2: Self, s: Seq<u8>, o: int)
        requires
            0 <= o,
            o + 4 <= s.len(),
            s.subrange(o, o + 4) == m.spec_serialize(),
            m2.spec_matches(s, o),
        ensures
            m2 == m,
    {
        let ser = m.spec_serialize();
        let sub = s.subrange(o, o + 4);
        assert(ser.len() == 4);
        assert(s[o] == sub[0] && sub[0] == ser[0]);
        assert(s[o + 1] == sub[1] && sub[1] == ser[1]);
        assert(s[o + 2] == sub[2] && sub[2] == ser[2]);
        assert(s[o + 3] == sub[3] && sub[3] == ser[3]);
        lemma_u32_le_at(s, o, m.window_id);
    }

    /// Round trip: a value that matches the decoder's reading of `m`'s
    /// own encoding is `m` itself.
    pub proof fn lemma_roundtrip(m: Self, m2: Self)
        requires
            m2.spec_matches(m.spec_serialize(), 0),
        ensures
            m2 == m,
    {
        assert(m.spec_serialize().subrange(0, 4) =~= m.spec_serialize());
        Self::lemma_roundtrip_at(m, m2, m.spec_serialize(), 0);
    }
}

/// Reparent a window.
#[derive(Debug, Clone, Copy, PartialEq, Eq, Structural)]
pub struct IcmMsgSetWindowParent {
    pub window_id: u32,
    pub parent_id: u32,
}

impl IcmMsgSetWindowParent {
    /// The payload's wire form: 8 bytes.
    pub open spec fn spec_serialize(self) -> Seq<u8> {
        spec_u32_le(self.window_id) + spec_u32_le(self.parent_id)
    }

    /// The decoder's reading of a payload held at offset `o` of `s`.
    pub open spec fn spec_matches(self, s: Seq<u8>, o: int) -> bool {
        &&& self.window_id == spec_u32_at(s, o)
        &&& self.parent_id == spec_u32_at(s, o + 4)
    }

    /// Encode the payload.
    pub fn serialize(&self) -> (r: Vec<u8>)
        ensures
            r@ == self.spec_serialize(),
            r@.len() == 8,
    {
        let mut buf: Vec<u8> = Vec::new();
        write_u32_le(&mut buf, self.window_id);
        write_u32_le(&mut buf, self.parent_id);
        proof {
            assert(buf@ =~= self.spec_serialize());
        }
        buf
    }

    /// Decode a payload from the first 8 bytes of `bytes`.
    pub fn deserialize(bytes: &[u8]) -> (r: Result<(Self, usize), IpcError>)
        ensures
            match r {
                Ok((m, n)) => bytes@.len() >= 8 && n == 8 && m.spec_matches(bytes@, 0),
                Err(e) => bytes@.len() < 8 && e == IpcError::UnexpectedEnd,
            },
    {
        if bytes.len() < 8 {
            return Err(IpcError::UnexpectedEnd);
        }
        let m = Self {
            window_id: read_u32_le(bytes, 0),
            parent_id: read_u32_le(bytes, 4),
        };
        Ok((m, 8))
    }

    /// Round trip at an offset: if the bytes at `o` are `m`'s encoding,
    /// a value that matches the decoder's reading there agrees with `m`.
    pub proof fn lemma_roundtrip_at(m: Self, m2: Self, s: Seq<u8>, o: int)
        requires
            0 <= o,
            o + 8 <= s.len(),
            s.subrange(o, o + 8) == m.spec_serialize(),
            m2.spec_matches(s, o),
        ensures
            m2 == m,
    {
        let ser = m.spec_serialize();
        let sub = s.subrange(o, o + 8);
        assert(ser.len() == 8);
        assert(s[o] == sub[0] && sub[0] == ser[0]);
        assert(s[o + 1] == sub[1] && sub[1] == ser[1]);
        assert(s[o + 2] == sub[2] && sub[2] == ser[2]);
        assert(s[o + 3] == sub[3] && sub[3] == ser[3]);
        lemma_u32_le_at(s, o, m.window_id);
        assert(s[o + 4] == sub[4] && sub[4] == ser[4]);
        assert(s[o + 5] == sub[5] && sub[5] == ser[5]);
        assert(s[o + 6] == sub[6] && sub[6] == ser[6]);
        assert(s[o + 7] == sub[7] && sub[7] == ser[7]);
        lemma_u32_le_at(s, o + 4, m.parent_id);
    }

    /// Round trip: a value that matches the decoder's reading of `m`'s
    /// own encoding is `m` itself.
    pub proof fn lemma_roundtrip(m: Self, m2: Self)
        requires
            m2.spec_matches(m.spec_serialize(), 0),
        ensures
            m2 == m,
    {
        assert(m.spec_serialize().subrange(0, 8) =~= m.spec_serialize());
        Self::lemma_roundtrip_at(m, m2, m.spec_serialize(), 0);
    }
}

/// Set a window's 3-D transform (translate, rotate, scale).
#[derive(Debug, Clone, Copy, PartialEq, Eq, Structural)]
pub struct IcmMsgSetWindowTransform3d {
    pub window_id: u32,
    pub translate_x: u32,
    pub translate_y: u32,
    pub translate_z: u32,
    pub rotate_x: u32,
    pub rotate_y: u32,
    pub rotate_z: u32,
    pub scale_x: u32,
    pub scale_y: u32,
    pub scale_z: u32,
}

impl IcmMsgSetWindowTransform3d {
    /// The payload's wire form: 40 bytes.
    pub open spec fn spec_serialize(self) -> Seq<u8> {
        spec_u32_le(self.window_id) + spec_u32_le(self.translate_x) + spec_u32_le(self.translate_y) + spec_u32_le(self.translate_z) + spec_u32_le(self.rotate_x) + spec_u32_le(self.rotate_y) + spec_u32_le(self.rotate_z) + spec_u32_le(self.scale_x) + spec_u32_le(self.scale_y) + spec_u32_le(self.scale_z)
    }

    /// The decoder's reading of a payload held at offset `o` of `s`.
    pub open spec fn spec_matches(self, s: Seq<u8>, o: int) -> bool {
        &&& self.window_id == spec_u32_at(s, o)
        &&& self.translate_x == spec_u32_at(s, o + 4)
        &&& self.translate_y == spec_u32_at(s, o + 8)
        &&& self.translate_z == spec_u32_at(s, o + 12)
        &&& self.rotate_x == spec_u32_at(s, o + 16)
        &&& self.rotate_y == spec_u32_at(s, o + 20)
        &&& self.rotate_z == spec_u32_at(s, o + 24)
        &&& self.scale_x == spec_u32_at(s, o + 28)
        &&& self.scale_y == spec_u32_at(s, o + 32)
        &&& self.scale_z == spec_u32_at(s, o + 36)
    }

    /// Encode the payload.
    pub fn serialize(&self) -> (r: Vec<u8>)
        ensures
            r@ == self.spec_serialize(),
            r@.len() == 40,
    {
        let mut buf: Vec<u8> = Vec::new();
        write_u32_le(&mut buf, self.window_id);
        write_u32_le(&mut buf, self.translate_x);
        write_u32_le(&mut buf, self.translate_y);
        write_u32_le(&mut buf, self.translate_z);
        write_u32_le(&mut buf, self.rotate_x);
        write_u32_le(&mut buf, self.rotate_y);
        write_u32_le(&mut buf, self.rotate_z);
        write_u32_le(&mut buf, self.scale_x);
        write_u32_le(&mut buf, self.scale_y);
        write_u32_le(&mut buf, self.scale_z);
        proof {
            assert(buf@ =~= self.spec_serialize());
        }
        buf
    }

    /// Decode a payload from the first 40 bytes of `bytes`.
    pub fn deserialize(bytes: &[u8]) -> (r: Result<(Self, usize), IpcError>)
        ensures
            match r {
                Ok((m, n)) => bytes@.len() >= 40 && n == 40 && m.spec_matches(bytes@, 0),
                Err(e) => bytes@.len() < 40 && e == IpcError::UnexpectedEnd,
            },
    {
        if bytes.len() < 40 {
            return Err(IpcError::UnexpectedEnd);
        }
        let m = Self {
            window_id: read_u32_le(bytes, 0),
            translate_x: read_u32_le(bytes, 4),
            translate_y: read_u32_le(bytes, 8),
            translate_z: read_u32_le(bytes, 12),
            rotate_x: read_u32_le(bytes, 16),
            rotate_y: read_u32_le(bytes, 20),
            rotate_z: read_u32_le(bytes, 24),
            scale_x: read_u32_le(bytes, 28),
            scale_y: read_u32_le(bytes, 32),
            scale_z: read_u32_le(bytes, 36),
        };
        Ok((m, 40))
    }

    /// Round trip at an offset: if the bytes at `o` are `m`'s encoding,
    /// a value that matches the decoder's reading there agrees with `m`.
    #[verifier::rlimit(50)]
    pub proof fn lemma_roundtrip_at(m: Self, m2: Self, s: Seq<u8>, o: int)
        requires
            0 <= o,
            o + 40 <= s.len(),
            s.subrange(o, o + 40) == m.spec_serialize(),
            m2.spec_matches(s, o),
        ensures
            m2 == m,
    {
        let ser = m.spec_serialize();
        let sub = s.subrange(o, o + 40);
        assert(ser.len() == 40);
        assert(s[o] == sub[0] && sub[0] == ser[0]);
        assert(s[o + 1] == sub[1] && sub[1] == ser[1]);
        assert(s[o + 2] == sub[2] && sub[2] == ser[2]);
        assert(s[o + 3] == sub[3] && sub[3] == ser[3]);
        lemma_u32_le_at(s, o, m.window_id);
        assert(s[o + 4] == sub[4] && sub[4] == ser[4]);
        assert(s[o + 5] == sub[5] && sub[5] == ser[5]);
        assert(s[o + 6] == sub[6] && sub[6] == ser[6]);
        assert(s[o + 7] == sub[7] && sub[7] == ser[7]);
        lemma_u32_le_at(s, o + 4, m.translate_x);
        assert(s[o + 8] == sub[8] && sub[8] == ser[8]);
        assert(s[o + 9] == sub[9] && sub[9] == ser[9]);
        assert(s[o + 10] == sub[10] && sub[10] == ser[10]);
        assert(s[o + 11] == sub[11] && sub[11] == ser[11]);
        lemma_u32_le_at(s, o + 8, m.translate_y);
        assert(s[o + 12] == sub[12] && sub[12] == ser[12]);
        assert(s[o + 13] == sub[13] && sub[13] == ser[13]);
        assert(s[o + 14] == sub[14] && sub[14] == ser[14]);
        assert(s[o + 15] == sub[15] && sub[15] == ser[15]);
        lemma_u32_le_at(s, o + 12, m.translate_z);
        assert(s[o + 16] == sub[16] && sub[16] == ser[16]);
        assert(s[o + 17] == sub[17] && sub[17] == ser[17]);
        assert(s[o + 18] == sub[18] && sub[18] == ser[18]);
        assert(s[o + 19] == sub[19] && sub[19] == ser[19]);
        lemma_u32_le_at(s, o + 16, m.rotate_x);
        assert(s[o + 20] == sub[20] && sub[20] == ser[20]);
        assert(s[o + 21] == sub[21] && sub[21] == ser[21]);
        assert(s[o + 22] == sub[22] && sub[22] == ser[22]);
        assert(s[o + 23] == sub[23] && sub[23] == ser[23]);
        lemma_u32_le_at(s, o + 20, m.rotate_y);
        assert(s[o + 24] == sub[24] && sub[24] == ser[24]);
        assert(s[o + 25] == sub[25] && sub[25] == ser[25]);
        assert(s[o + 26] == sub[26] && sub[26] == ser[26]);
        assert(s[o + 27] == sub[27] && sub[27] == ser[27]);
        lemma_u32_le_at(s, o + 24, m.rotate_z);
        assert(s[o + 28] == sub[28] && sub[28] == ser[28]);
        assert(s[o + 29] == sub[29] && sub[29] == ser[29]);
        assert(s[o + 30] == sub[30] && sub[30] == ser[30]);
        assert(s[o + 31] == sub[31] && sub[31] == ser[31]);
        lemma_u32_le_at(s, o + 28, m.scale_x);
        assert(s[o + 32] == sub[32] && sub[32] == ser[32]);
        assert(s[o + 33] == sub[33] && sub[33] == ser[33]);
        assert(s[o + 34] == sub[34] && sub[34] == ser[34]);
        assert(s[o + 35] == sub[35] && sub[35] == ser[35]);
        lemma_u32_le_at(s, o + 32, m.scale_y);
        assert(s[o + 36] == sub[36] && sub[36] == ser[36]);
        assert(s[o + 37] == sub[37] && sub[37] == ser[37]);
        assert(s[o + 38] == sub[38] && sub[38] == ser[38]);
        assert(s[o + 39] == sub[39] && sub[39] == ser[39]);
        lemma_u32_le_at(s, o + 36, m.scale_z);
    }

    /// Round trip: a value that matches the decoder's reading of `m`'s
    /// own encoding is `m` itself.
    #[verifier::rlimit(50)]
    pub proof fn lemma_roundtrip(m: Self, m2: Self)
        requires
            m2.spec_matches(m.spec_serialize(), 0),
        ensures
            m2 == m,
    {
        assert(m.spec_serialize().subrange(0, 40) =~= m.spec_serialize());
        Self::lemma_roundtrip_at(m, m2, m.spec_serialize(), 0);
    }
}

/// Set a window's state word.
#[derive(Debug, Clone, Copy, PartialEq, Eq, Structural)]
pub struct IcmMsgSetWindowState {
    pub window_id: u32,
    pub state: u32,
}

impl IcmMsgSetWindowState {
    /// The payload's wire form: 8 bytes.
    pub open spec fn spec_serialize(self) -> Seq<u8> {
        spec_u32_le(self.window_id) + spec_u32_le(self.state)
    }

    /// The decoder's reading of a payload held at offset `o` of `s`.
    pub open spec fn spec_matches(self, s: Seq<u8>, o: int) -> bool {
        &&& self.window_id == spec_u32_at(s, o)
        &&& self.state == spec_u32_at(s, o + 4)
    }

    /// Encode the payload.
    pub fn serialize(&self) -> (r: Vec<u8>)
        ensures
            r@ == self.spec_serialize(),
            r@.len() == 8,
    {
        let mut buf: Vec<u8> = Vec::new();
        write_u32_le(&mut buf, self.window_id);
        write_u32_le(&mut buf, self.state);
        proof {
            assert(buf@ =~= self.spec_serialize());
        }
        buf
    }

    /// Decode a payload from the first 8 bytes of `bytes`.
    pub fn deserialize(bytes: &[u8]) -> (r: Result<(Self, usize), IpcError>)
        ensures
            match r {
                Ok((m, n)) => bytes@.len() >= 8 && n == 8 && m.spec_matches(bytes@, 0),
                Err(e) => bytes@.len() < 8 && e == IpcError::UnexpectedEnd,
            },
    {
        if bytes.len() < 8 {
            return Err(IpcError::UnexpectedEnd);
        }
        let m = Self {
            window_id: read_u32_le(bytes, 0),
            state: read_u32_le(bytes, 4),
        };
        Ok((m, 8))
    }

    /// Round trip at an offset: if the bytes at `o` are `m`'s encoding,
    /// a value that matches the decoder's reading there agrees with `m`.
    pub proof fn lemma_roundtrip_at(m: Self, m2: Self, s: Seq<u8>, o: int)
        requires
            0 <= o,
            o + 8 <= s.len(),
            s.subrange(o, o + 8) == m.spec_serialize(),
            m2.spec_matches(s, o),
        ensures
            m2 == m,
    {
        let ser = m.spec_serialize();
        let sub = s.subrange(o, o + 8);
        assert(ser.len() == 8);
        assert(s[o] == sub[0] && sub[0] == ser[0]);
        assert(s[o + 1] == sub[1] && sub[1] == ser[1]);
        assert(s[o + 2] == sub[2] && sub[2] == ser[2]);
        assert(s[o + 3] == sub[3] && sub[3] == ser[3]);
        lemma_u32_le_at(s, o, m.window_id);
        assert(s[o + 4] == sub[4] && sub[4] == ser[4]);
        assert(s[o + 5] == sub[5] && sub[5] == ser[5]);
        assert(s[o + 6] == sub[6] && sub[6] == ser[6]);
        assert(s[o + 7] == sub[7] && sub[7] == ser[7]);
        lemma_u32_le_at(s, o + 4, m.state);
    }

    /// Round trip: a value that matches the decoder's reading of `m`'s
    /// own encoding is `m` itself.
    pub proof fn lemma_roundtrip(m: Self, m2: Self)
        requires
            m2.spec_matches(m.spec_serialize(), 0),
        ensures
            m2 == m,
    {
        assert(m.spec_serialize().subrange(0, 8) =~= m.spec_serialize());
        Self::lemma_roundtrip_at(m, m2, m.spec_serialize(), 0);
    }
}

/// Give a window keyboard focus.
#[derive(Debug, Clone, Copy, PartialEq, Eq, Structural)]
pub struct IcmMsgFocusWindow {
    pub window_id: u32,
}

impl IcmMsgFocusWindow {
    /// The payload's wire form: 4 bytes.
    pub open spec fn spec_serialize(self) -> Seq<u8> {
        spec_u32_le(self.window_id)
    }

    /// The decoder's reading of a payload held at offset `o` of `s`.
    pub open spec fn spec_matches(self, s: Seq<u8>, o: int) -> bool {
        &&& self.window_id == spec_u32_at(s, o)
    }

    /// Encode the payload.
    pub fn serialize(&self) -> (r: Vec<u8>)
        ensures
            r@ == self.spec_serialize(),
            r@.len() == 4,
    {
        let mut buf: Vec<u8> = Vec::new();
        write_u32_le(&mut buf, self.window_id);
        proof {
            assert(buf@ =~= self.spec_serialize());
        }
        buf
    }

    /// Decode a payload from the first 4 bytes of `bytes`.
    pub fn deserialize(bytes: &[u8]) -> (r: Result<(Self, usize), IpcError>)
        ensures
            match r {
                Ok((m, n)) => bytes@.len() >= 4 && n == 4 && m.spec_matches(bytes@, 0),
                Err(e) => bytes@.len() < 4 && e == IpcError::UnexpectedEnd,
            },
    {
        if bytes.len() < 4 {
            return Err(IpcError::UnexpectedEnd);
        }
        let m = Self {
            window_id: read_u32_le(bytes, 0),
        };
        Ok((m, 4))
    }

    /// Round trip at an offset: if the bytes at `o` are `m`'s encoding,
    /// a value that matches the decoder's reading there agrees with `m`.
    pub proof fn lemma_roundtrip_at(m: Self, m2: Self, s: Seq<u8>, o: int)
        requires
            0 <= o,
            o + 4 <= s.len(),
            s.subrange(o, o + 4) == m.spec_serialize(),
            m2.spec_matches(s, o),
        ensures
            m2 == m,
    {
        let ser = m.spec_serialize();
        let sub = s.subrange(o, o + 4);
        assert(ser.len() == 4);
        assert(s[o] == sub[0] && sub[0] == ser[0]);
        assert(s[o + 1] == sub[1] && sub[1] == ser[1]);
        assert(s[o + 2] == sub[2] && sub[2] == ser[2]);
        assert(s[o + 3] == sub[3] && sub[3] == ser[3]);
        lemma_u32_le_at(s, o, m.window_id);
    }

    /// Round trip: a value that matches the decoder's reading of `m`'s
    /// own encoding is `m` itself.
    pub proof fn lemma_roundtrip(m: Self, m2: Self)
        requires
            m2.spec_matches(m.spec_serialize(), 0),
        ensures
            m2 == m,
    {
        assert(m.spec_serialize().subrange(0, 4) =~= m.spec_serialize());
        Self::lemma_roundtrip_at(m, m2, m.spec_serialize(), 0);
    }
}

/// Take keyboard focus away from a window.
#[derive(Debug, Clone, Copy, PartialEq, Eq, Structural)]
pub struct IcmMsgBlurWindow {
    pub window_id: u32,
}

impl IcmMsgBlurWindow {
    /// The payload's wire form: 4 bytes.
    pub open spec fn spec_serialize(self) -> Seq<u8> {
        spec_u32_le(self.window_id)
    }

    /// The decoder's reading of a payload held at offset `o` of `s`.
    pub open spec fn spec_matches(self, s: Seq<u8>, o: int) -> bool {
        &&& self.window_id == spec_u32_at(s, o)
    }

    /// Encode the payload.
    pub fn serialize(&self) -> (r: Vec<u8>)
        ensures
            r@ == self.spec_serialize(),
            r@.len() == 4,
    {
        let mut buf: Vec<u8> = Vec::new();
        write_u32_le(&mut buf, self.window_id);
        proof {
            assert(buf@ =~= self.spec_serialize());
        }
        buf
    }

    /// Decode a payload from the first 4 bytes of `bytes`.
    pub fn deserialize(bytes: &[u8]) -> (r: Result<(Self, usize), IpcError>)
        ensures
            match r {
                Ok((m, n)) => bytes@.len() >= 4 && n == 4 && m.spec_matches(bytes@, 0),
                Err(e) => bytes@.len() < 4 && e == IpcError::UnexpectedEnd,
            },
    {
        if bytes.len() < 4 {
            return Err(IpcError::UnexpectedEnd);
        }
        let m = Self {
            window_id: read_u32_le(bytes, 0),
        };
        Ok((m, 4))
    }

    /// Round trip at an offset: if the bytes at `o` are `m`'s encoding,
    /// a value that matches the decoder's reading there agrees with `m`.
    pub proof fn lemma_roundtrip_at(m: Self, m2: Self, s: Seq<u8>, o: int)
        requires
            0 <= o,
            o + 4 <= s.len(),
            s.subrange(o, o + 4) == m.spec_serialize(),
            m2.spec_matches(s, o),
        ensures
            m2 == m,
    {
        let ser = m.spec_serialize();
        let sub = s.subrange(o, o + 4);
        assert(ser.len() == 4);
        assert(s[o] == sub[0] && sub[0] == ser[0]);
        assert(s[o + 1] == sub[1] && sub[1] == ser[1]);
        assert(s[o + 2] == sub[2] && sub[2] == ser[2]);
        assert(s[o + 3] == sub[3] && sub[3] == ser[3]);
        lemma_u32_le_at(s, o, m.window_id);
    }

    /// Round trip: a value that matches the decoder's reading of `m`'s
    /// own encoding is `m` itself.
    pub proof fn lemma_roundtrip(m: Self, m2: Self)
        requires
            m2.spec_matches(m.spec_serialize(), 0),
        ensures
            m2 == m,
    {
        assert(m.spec_serialize().subrange(0, 4) =~= m.spec_serialize());
        Self::lemma_roundtrip_at(m, m2, m.spec_serialize(), 0);
    }
}

/// Animate a window towards target geometry and transform values.
#[derive(Debug, Clone, Copy, PartialEq, Eq, Structural)]
pub struct IcmMsgAnimateWindow {
    pub window_id: u32,
    pub duration_ms: u32,
    pub target_x: u32,
    pub target_y: u32,
    pub target_scale_x: u32,
    pub target_scale_y: u32,
    pub target_opacity: u32,
    pub target_translate_x: u32,
    pub target_translate_y: u32,
    pub target_translate_z: u32,
    pub target_rotate_x: u32,
    pub target_rotate_y: u32,
    pub target_rotate_z: u32,
    pub target_scale_z: u32,
    pub flags: u32,
}

impl IcmMsgAnimateWindow {
    /// The payload's wire form: 60 bytes.
    pub open spec fn spec_serialize(self) -> Seq<u8> {
        spec_u32_le(self.window_id) + spec_u32_le(self.duration_ms) + spec_u32_le(self.target_x) + spec_u32_le(self.target_y) + spec_u32_le(self.target_scale_x) + spec_u32_le(self.target_scale_y) + spec_u32_le(self.target_opacity) + spec_u32_le(self.target_translate_x) + spec_u32_le(self.target_translate_y) + spec_u32_le(self.target_translate_z) + spec_u32_le(self.target_rotate_x) + spec_u32_le(self.target_rotate_y) + spec_u32_le(self.target_rotate_z) + spec_u32_le(self.target_scale_z) + spec_u32_le(self.flags)
    }

    /// The decoder's reading of a payload held at offset `o` of `s`.
    pub open spec fn spec_matches(self, s: Seq<u8>, o: int) -> bool {
        &&& self.window_id == spec_u32_at(s, o)
        &&& self.duration_ms == spec_u32_at(s, o + 4)
        &&& self.target_x == spec_u32_at(s, o + 8)
        &&& self.target_y == spec_u32_at(s, o + 12)
        &&& self.target_scale_x == spec_u32_at(s, o + 16)
        &&& self.target_scale_y == spec_u32_at(s, o + 20)
        &&& self.target_opacity == spec_u32_at(s, o + 24)
        &&& self.target_translate_x == spec_u32_at(s, o + 28)
        &&& self.target_translate_y == spec_u32_at(s, o + 32)
        &&& self.target_translate_z == spec_u32_at(s, o + 36)
        &&& self.target_rotate_x == spec_u32_at(s, o + 40)
        &&& self.target_rotate_y == spec_u32_at(s, o + 44)
        &&& self.target_rotate_z == spec_u32_at(s, o + 48)
        &&& self.target_scale_z == spec_u32_at(s, o + 52)
        &&& self.flags == spec_u32_at(s, o + 56)
    }

    /// Encode the payload.
    pub fn serialize(&self) -> (r: Vec<u8>)
        ensures
            r@ == self.spec_serialize(),
            r@.len() == 60,
    {
        let mut buf: Vec<u8> = Vec::new();
        write_u32_le(&mut buf, self.window_id);
        write_u32_le(&mut buf, self.duration_ms);
        write_u32_le(&mut buf, self.target_x);
        write_u32_le(&mut buf, self.target_y);
        write_u32_le(&mut buf, self.target_scale_x);
        write_u32_le(&mut buf, self.target_scale_y);
        write_u32_le(&mut buf, self.target_opacity);
        write_u32_le(&mut buf, self.target_translate_x);
        write_u32_le(&mut buf, self.target_translate_y);
        write_u32_le(&mut buf, self.target_translate_z);
        write_u32_le(&mut buf, self.target_rotate_x);
        write_u32_le(&mut buf, self.target_rotate_y);
        write_u32_le(&mut buf, self.target_rotate_z);
        write_u32_le(&mut buf, self.target_scale_z);
        write_u32_le(&mut buf, self.flags);
        proof {
            assert(buf@ =~= self.spec_serialize());
        }
        buf
    }

    /// Decode a payload from the first 60 bytes of `bytes`.
    pub fn deserialize(bytes: &[u8]) -> (r: Result<(Self, usize), IpcError>)
        ensures
            match r {
                Ok((m, n)) => bytes@.len() >= 60 && n == 60 && m.spec_matches(bytes@, 0),
                Err(e) => bytes@.len() < 60 && e == IpcError::UnexpectedEnd,
            },
    {
        if bytes.len() < 60 {
            return Err(IpcError::UnexpectedEnd);
        }
        let m = Self {
            window_id: read_u32_le(bytes, 0),
            duration_ms: read_u32_le(bytes, 4),
            target_x: read_u32_le(bytes, 8),
            target_y: read_u32_le(bytes, 12),
            target_scale_x: read_u32_le(bytes, 16),
            target_scale_y: read_u32_le(bytes, 20),
            target_opacity: read_u32_le(bytes, 24),
            target_translate_x: read_u32_le(bytes, 28),
            target_translate_y: read_u32_le(bytes, 32),
            target_translate_z: read_u32_le(bytes, 36),
            target_rotate_x: read_u32_le(bytes, 40),
            target_rotate_y: read_u32_le(bytes, 44),
            target_rotate_z: read_u32_le(bytes, 48),
            target_scale_z: read_u32_le(bytes, 52),
            flags: read_u32_le(bytes, 56),
        };
        Ok((m, 60))
    }

    /// Round trip at an offset: if the bytes at `o` are `m`'s encoding,
    /// a value that matches the decoder's reading there agrees with `m`.
    #[verifier::rlimit(50)]
    pub proof fn lemma_roundtrip_at(m: Self, m2: Self, s: Seq<u8>, o: int)
        requires
            0 <= o,
            o + 60 <= s.len(),
            s.subrange(o, o + 60) == m.spec_serialize(),
            m2.spec_matches(s, o),
        ensures
            m2 == m,
    {
        let ser = m.spec_serialize();
        let sub = s.subrange(o, o + 60);
        assert(ser.len() == 60);
        assert(s[o] == sub[0] && sub[0] == ser[0]);
        assert(s[o + 1] == sub[1] && sub[1] == ser[1]);
        assert(s[o + 2] == sub[2] && sub[2] == ser[2]);
        assert(s[o + 3] == sub[3] && sub[3] == ser[3]);
        lemma_u32_le_at(s, o, m.window_id);
        assert(s[o + 4] == sub[4] && sub[4] == ser[4]);
        assert(s[o + 5] == sub[5] && sub[5] == ser[5]);
        assert(s[o + 6] == sub[6] && sub[6] == ser[6]);
        assert(s[o + 7] == sub[7] && sub[7] == ser[7]);
        lemma_u32_le_at(s, o + 4, m.duration_ms);
        assert(s[o + 8] == sub[8] && sub[8] == ser[8]);
        assert(s[o + 9] == sub[9] && sub[9] == ser[9]);
        assert(s[o + 10] == sub[10] && sub[10] == ser[10]);
        assert(s[o + 11] == sub[11] && sub[11] == ser[11]);
        lemma_u32_le_at(s, o + 8, m.target_x);
        assert(s[o + 12] == sub[12] && sub[12] == ser[12]);
        assert(s[o + 13] == sub[13] && sub[13] == ser[13]);
        assert(s[o + 14] == sub[14] && sub[14] == ser[14]);
        assert(s[o + 15] == sub[15] && sub[15] == ser[15]);
        lemma_u32_le_at(s, o + 12, m.target_y);
        assert(s[o + 16] == sub[16] && sub[16] == ser[16]);
        assert(s[o + 17] == sub[17] && sub[17] == ser[17]);
        assert(s[o + 18] == sub[18] && sub[18] == ser[18]);
        assert(s[o + 19] == sub[19] && sub[19] == ser[19]);
        lemma_u32_le_at(s, o + 16, m.target_scale_x);
        assert(s[o + 20] == sub[20] && sub[20] == ser[20]);
        assert(s[o + 21] == sub[21] && sub[21] == ser[21]);
        assert(s[o + 22] == sub[22] && sub[22] == ser[22]);
        assert(s[o + 23] == sub[23] && sub[23] == ser[23]);
        lemma_u32_le_at(s, o + 20, m.target_scale_y);
        assert(s[o + 24] == sub[24] && sub[24] == ser[24]);
        assert(s[o + 25] == sub[25] && sub[25] == ser[25]);
        assert(s[o + 26] == sub[26] && sub[26] == ser[26]);
        assert(s[o + 27] == sub[27] && sub[27] == ser[27]);
        lemma_u32_le_at(s, o + 24, m.target_opacity);
        assert(s[o + 28] == sub[28] && sub[28] == ser[28]);
        assert(s[o + 29] == sub[29] && sub[29] == ser[29]);
        assert(s[o + 30] == sub[30] && sub[30] == ser[30]);
        assert(s[o + 31] == sub[31] && sub[31] == ser[31]);
        lemma_u32_le_at(s, o + 28, m.target_translate_x);
        assert(s[o + 32] == sub[32] && sub[32] == ser[32]);
        assert(s[o + 33] == sub[33] && sub[33] == ser[33]);
        assert(s[o + 34] == sub[34] && sub[34] == ser[34]);
        assert(s[o + 35] == sub[35] && sub[35] == ser[35]);
        lemma_u32_le_at(s, o + 32, m.target_translate_y);
        assert(s[o + 36] == sub[36] && sub[36] == ser[36]);
        assert(s[o + 37] == sub[37] && sub[37] == ser[37]);
        assert(s[o + 38] == sub[38] && sub[38] == ser[38]);
        assert(s[o + 39] == sub[39] && sub[39] == ser[39]);
        lemma_u32_le_at(s, o + 36, m.target_translate_z);
        assert(s[o + 40] == sub[40] && sub[40] == ser[40]);
        assert(s[o + 41] == sub[41] && sub[41] == ser[41]);
        assert(s[o + 42] == sub[42] && sub[42] == ser[42]);
        assert(s[o + 43] == sub[43] && sub[43] == ser[43]);
        lemma_u32_le_at(s, o + 40, m.target_rotate_x);
        assert(s[o + 44] == sub[44] && sub[44] == ser[44]);
        assert(s[o + 45] == sub[45] && sub[45] == ser[45]);
        assert(s[o + 46] == sub[46] && sub[46] == ser[46]);
        assert(s[o + 47] == sub[47] && sub[47] == ser[47]);
        lemma_u32_le_at(s, o + 44, m.target_rotate_y);
        assert(s[o + 48] == sub[48] && sub[48] == ser[48]);
        assert(s[o + 49] == sub[49] && sub[49] == ser[49]);
        assert(s[o + 50] == sub[50] && sub[50] == ser[50]);
        assert(s[o + 51] == sub[51] && sub[51] == ser[51]);
        lemma_u32_le_at(s, o + 48, m.target_rotate_z);
        assert(s[o + 52] == sub[52] && sub[52] == ser[52]);
        assert(s[o + 53] == sub[53] && sub[53] == ser[53]);
        assert(s[o + 54] == sub[54] && sub[54] == ser[54]);
        assert(s[o + 55] == sub[55] && sub[55] == ser[55]);
        lemma_u32_le_at(s, o + 52, m.target_scale_z);
        assert(s[o + 56] == sub[56] && sub[56] == ser[56]);
        assert(s[o + 57] == sub[57] && sub[57] == ser[57]);
        assert(s[o + 58] == sub[58] && sub[58] == ser[58]);
        assert(s[o + 59] == sub[59] && sub[59] == ser[59]);
        lemma_u32_le_at(s, o + 56, m.flags);
    }

    /// Round trip: a value that matches the decoder's reading of `m`'s
    /// own encoding is `m` itself.
    #[verifier::rlimit(50)]
    pub proof fn lemma_roundtrip(m: Self, m2: Self)
        requires
            m2.spec_matches(m.spec_serialize(), 0),
        ensures
            m2 == m,
    {
        assert(m.spec_serialize().subrange(0, 60) =~= m.spec_serialize());
        Self::lemma_roundtrip_at(m, m2, m.spec_serialize(), 0);
    }
}

/// Stop any running animation on a window.
#[derive(Debug, Clone, Copy, PartialEq, Eq, Structural)]
pub struct IcmMsgStopAnimation {
    pub window_id: u32,
}

impl IcmMsgStopAnimation {
    /// The payload's wire form: 4 bytes.
    pub open spec fn spec_serialize(self) -> Seq<u8> {
        spec_u32_le(self.window_id)
    }

    /// The decoder's reading of a payload held at offset `o` of `s`.
    pub open spec fn spec_matches(self, s: Seq<u8>, o: int) -> bool {
        &&& self.window_id == spec_u32_at(s, o)
    }

    /// Encode the payload.
    pub fn serialize(&self) -> (r: Vec<u8>)
        ensures
            r@ == self.spec_serialize(),
            r@.len() == 4,
    {
        let mut buf: Vec<u8> = Vec::new();
        write_u32_le(&mut buf, self.window_id);
        proof {
            assert(buf@ =~= self.spec_serialize());
        }
        buf
    }

    /// Decode a payload from the first 4 bytes of `bytes`.
    pub fn deserialize(bytes: &[u8]) -> (r: Result<(Self, usize), IpcError>)
        ensures
            match r {
                Ok((m, n)) => bytes@.len() >= 4 && n == 4 && m.spec_matches(bytes@, 0),
                Err(e) => bytes@.len() < 4 && e == IpcError::UnexpectedEnd,
            },
    {
        if bytes.len() < 4 {
            return Err(IpcError::UnexpectedEnd);
        }
        let m = Self {
            window_id: read_u32_le(bytes, 0),
        };
        Ok((m, 4))
    }

    /// Round trip at an offset: if the bytes at `o` are `m`'s encoding,
    /// a value that matches the decoder's reading there agrees with `m`.
    pub proof fn lemma_roundtrip_at(m: Self, m2: Self, s: Seq<u8>, o: int)
        requires
            0 <= o,
            o + 4 <= s.len(),
            s.subrange(o, o + 4) == m.spec_serialize(),
            m2.spec_matches(s, o),
        ensures
            m2 == m,
    {
        let ser = m.spec_serialize();
        let sub = s.subrange(o, o + 4);
        assert(ser.len() == 4);
        assert(s[o] == sub[0] && sub[0] == ser[0]);
        assert(s[o + 1] == sub[1] && sub[1] == ser[1]);
        assert(s[o + 2] == sub[2] && sub[2] == ser[2]);
        assert(s[o + 3] == sub[3] && sub[3] == ser[3]);
        lemma_u32_le_at(s, o, m.window_id);
    }

    /// Round trip: a value that matches the decoder's reading of `m`'s
    /// own encoding is `m` itself.
    pub proof fn lemma_roundtrip(m: Self, m2: Self)
        requires
            m2.spec_matches(m.spec_serialize(), 0),
        ensures
            m2 == m,
    {
        assert(m.spec_serialize().subrange(0, 4) =~= m.spec_serialize());
        Self::lemma_roundtrip_at(m, m2, m.spec_serialize(), 0);
    }
}

/// Set a window's full 4x4 transform matrix; the sixteen entries are `f32`
/// bit patterns, stored in the order the wire carries them.
#[derive(Debug, Clone, PartialEq, Eq)]
pub struct IcmMsgSetWindowMatrix {
    pub window_id: u32,
    pub matrix: Vec<u32>,
}

impl IcmMsgSetWindowMatrix {
    /// The payload's wire form: 68 bytes when the matrix has its sixteen
    /// entries.
    pub open spec fn spec_serialize(self) -> Seq<u8> {
        spec_u32_le(self.window_id) + spec_words_le(self.matrix@)
    }

    /// The decoder's reading of a payload held at offset `o` of `s`.
    pub open spec fn spec_matches(self, s: Seq<u8>, o: int) -> bool {
        &&& self.window_id == spec_u32_at(s, o)
        &&& self.matrix@.len() == 16
        &&& forall|k: int|
            0 <= k < 16 ==> self.matrix@[k] == spec_u32_at(s, o + 4 + 4 * k)
    }

    /// Encode the payload.
    pub fn serialize(&self) -> (r: Vec<u8>)
        requires
            self.matrix@.len() == 16,
        ensures
            r@ == self.spec_serialize(),
            r@.len() == 68,
    {
        let mut buf: Vec<u8> = Vec::new();
        write_u32_le(&mut buf, self.window_id);
        let mut i: usize = 0;
        while i < 16
            invariant
                i <= 16,
                self.matrix@.len() == 16,
                buf@ == spec_u32_le(self.window_id) + spec_words_le(
                    self.matrix@.subrange(0, i as int),
                ),
            decreases 16 - i,
        {
            write_u32_le(&mut buf, self.matrix[i]);
            proof {
                assert(self.matrix@.subrange(0, i + 1) =~= self.matrix@.subrange(
                    0,
                    i as int,
                ).push(self.matrix@[i as int]));
                lemma_words_le_push(self.matrix@.subrange(0, i as int), self.matrix@[i as int]);
                assert(buf@ =~= spec_u32_le(self.window_id) + spec_words_le(
                    self.matrix@.subrange(0, i + 1),
                ));
            }
            i = i + 1;
        }
        proof {
            assert(self.matrix@.subrange(0, 16) =~= self.matrix@);
            lemma_words_le_len(self.matrix@);
        }
        buf
    }

    /// Decode a payload from the first 68 bytes of `bytes`.
    pub fn deserialize(bytes: &[u8]) -> (r: Result<(Self, usize), IpcError>)
        ensures
            match r {
                Ok((m, n)) => bytes@.len() >= 68 && n == 68 && m.spec_matches(bytes@, 0),
                Err(e) => bytes@.len() < 68 && e == IpcError::UnexpectedEnd,
            },
    {
        if bytes.len() < 68 {
            return Err(IpcError::UnexpectedEnd);
        }
        let window_id = read_u32_le(bytes, 0);
        let mut matrix: Vec<u32> = Vec::new();
        let mut i: usize = 0;
        while i < 16
            invariant
                i <= 16,
                bytes@.len() >= 68,
                matrix@.len() == i,
                forall|k: int| 0 <= k < i ==> matrix@[k] == spec_u32_at(bytes@, 4 + 4 * k),
            decreases 16 - i,
        {
            matrix.push(read_u32_le(bytes, 4 + 4 * i));
            i = i + 1;
        }
        Ok((Self { window_id, matrix }, 68))
    }

    /// Round trip at an offset: if the bytes at `o` are `m`'s encoding,
    /// a value that matches the decoder's reading there agrees with `m`.
    pub proof fn lemma_roundtrip_at(m: Self, m2: Self, s: Seq<u8>, o: int)
        requires
            0 <= o,
            o + 68 <= s.len(),
            m.matrix@.len() == 16,
            s.subrange(o, o + 68) == m.spec_serialize(),
            m2.spec_matches(s, o),
        ensures
            m2.window_id == m.window_id,
            m2.matrix@ == m.matrix@,
    {
        let ser = m.spec_serialize();
        let sub = s.subrange(o, o + 68);
        lemma_words_le_len(m.matrix@);
        assert(ser.len() == 68);
        assert(s[o] == sub[0] && sub[0] == ser[0]);
        assert(s[o + 1] == sub[1] && sub[1] == ser[1]);
        assert(s[o + 2] == sub[2] && sub[2] == ser[2]);
        assert(s[o + 3] == sub[3] && sub[3] == ser[3]);
        lemma_u32_le_at(s, o, m.window_id);
        assert forall|k: int| 0 <= k < 16 implies m2.matrix@[k] == m.matrix@[k] by {
            lemma_words_le_index(m.matrix@, k, 0);
            lemma_words_le_index(m.matrix@, k, 1);
            lemma_words_le_index(m.matrix@, k, 2);
            lemma_words_le_index(m.matrix@, k, 3);
            assert(s[o + (4 + 4 * k)] == sub[4 + 4 * k] && sub[4 + 4 * k] == ser[4 + 4 * k]);
            assert(s[o + (4 + 4 * k) + 1] == sub[4 + 4 * k + 1] && sub[4 + 4 * k + 1] == ser[4
                + 4 * k + 1]);
            assert(s[o + (4 + 4 * k) + 2] == sub[4 + 4 * k + 2] && sub[4 + 4 * k + 2] == ser[4
                + 4 * k + 2]);
            assert(s[o + (4 + 4 * k) + 3] == sub[4 + 4 * k + 3] && sub[4 + 4 * k + 3] == ser[4
                + 4 * k + 3]);
            assert(ser[4 + 4 * k] == spec_words_le(m.matrix@)[4 * k]);
            assert(ser[4 + 4 * k + 1] == spec_words_le(m.matrix@)[4 * k + 1]);
            assert(ser[4 + 4 * k + 2] == spec_words_le(m.matrix@)[4 * k + 2]);
            assert(ser[4 + 4 * k + 3] == spec_words_le(m.matrix@)[4 * k + 3]);
            lemma_u32_le_at(s, o + 4 + 4 * k, m.matrix@[k]);
            assert(spec_u32_at(s, o + (4 + 4 * k)) == m.matrix@[k]);
        }
        assert(m2.matrix@ =~= m.matrix@);
    }

    /// Round trip: a value that matches the decoder's reading of `m`'s own
    /// encoding agrees with `m`.
    pub proof fn lemma_roundtrip(m: Self, m2: Self)
        requires
            m.matrix@.len() == 16,
            m2.spec_matches(m.spec_serialize(), 0),
        ensures
            m2.window_id == m.window_id,
            m2.matrix@ == m.matrix@,
    {
        lemma_words_le_len(m.matrix@);
        assert(m.spec_serialize().subrange(0, 68) =~= m.spec_serialize());
        Self::lemma_roundtrip_at(m, m2, m.spec_serialize(), 0);
    }
}

/// One vertex of a window mesh transform: position and texture coordinates,
/// each an `f32` bit pattern.
#[derive(Debug, Clone, Copy, PartialEq, Eq, Structural)]
pub struct IcmMeshVertex {
    pub x: u32,
    pub y: u32,
    pub u: u32,
    pub v: u32,
}

/// The registry's size table agrees with these codecs: every encoded
/// payload satisfies the length rule registered for its message type.
pub proof fn lemma_sizes_match_registry(
    create_window: IcmMsgCreateWindow,
    set_window_visible: IcmMsgSetWindowVisible,
    window_created: IcmMsgWindowCreated,
    window_destroyed: IcmMsgWindowDestroyed,
    set_window_position: IcmMsgSetWindowPosition,
    set_window_size: IcmMsgSetWindowSize,
    set_window_opacity: IcmMsgSetWindowOpacity,
    set_window_blur: IcmMsgSetWindowBlur,
    set_window_transform: IcmMsgSetWindowTransform,
    set_window_layer: IcmMsgSetWindowLayer,
    raise_window: IcmMsgRaiseWindow,
    lower_window: IcmMsgLowerWindow,
    set_window_parent: IcmMsgSetWindowParent,
    set_window_transform3d: IcmMsgSetWindowTransform3d,
    set_window_state: IcmMsgSetWindowState,
    focus_window: IcmMsgFocusWindow,
    blur_window: IcmMsgBlurWindow,
    animate_window: IcmMsgAnimateWindow,
    stop_animation: IcmMsgStopAnimation,
    set_window_matrix: IcmMsgSetWindowMatrix,
)
    requires
        set_window_matrix.matrix@.len() == 16,
    ensures
        spec_payload_len_ok(
            IcmIpcMsgType::CreateWindow.spec_payload_shape(),
            create_window.spec_serialize().len() as int,
        ),
        spec_payload_len_ok(
            IcmIpcMsgType::SetWindowVisible.spec_payload_shape(),
            set_window_visible.spec_serialize().len() as int,
        ),
        spec_payload_len_ok(
            IcmIpcMsgType::WindowCreated.spec_payload_shape(),
            window_created.spec_serialize().len() as int,
        ),
        spec_payload_len_ok(
            IcmIpcMsgType::WindowDestroyed.spec_payload_shape(),
            window_destroyed.spec_serialize().len() as int,
        ),
        spec_payload_len_ok(
            IcmIpcMsgType::SetWindowPosition.spec_payload_shape(),
            set_window_position.spec_serialize().len() as int,
        ),
        spec_payload_len_ok(
            IcmIpcMsgType::SetWindowSize.spec_payload_shape(),
            set_window_size.spec_serialize().len() as int,
        ),
        spec_payload_len_ok(
            IcmIpcMsgType::SetWindowOpacity.spec_payload_shape(),
            set_window_opacity.spec_serialize().len() as int,
        ),
        spec_payload_len_ok(
            IcmIpcMsgType::SetWindowBlur.spec_payload_shape(),
            set_window_blur.spec_serialize().len() as int,
        ),
        spec_payload_len_ok(
            IcmIpcMsgType::SetWindowTransform.spec_payload_shape(),
            set_window_transform.spec_serialize().len() as int,
        ),
        spec_payload_len_ok(
            IcmIpcMsgType::SetWindowLayer.spec_payload_shape(),
            set_window_layer.spec_serialize().len() as int,
        ),
        spec_payload_len_ok(
            IcmIpcMsgType::RaiseWindow.spec_payload_shape(),
            raise_window.spec_serialize().len() as int,
        ),
        spec_payload_len_ok(
            IcmIpcMsgType::LowerWindow.spec_payload_shape(),
            lower_window.spec_serialize().len() as int,
        ),
        spec_payload_len_ok(
            IcmIpcMsgType::SetWindowParent.spec_payload_shape(),
            set_window_parent.spec_serialize().len() as int,
        ),
        spec_payload_len_ok(
            IcmIpcMsgType::SetWindowTransform3d.spec_payload_shape(),
            set_window_transform3d.spec_serialize().len() as int,
        ),
        spec_payload_len_ok(
            IcmIpcMsgType::SetWindowState.spec_payload_shape(),
            set_window_state.spec_serialize().len() as int,
        ),
        spec_payload_len_ok(
            IcmIpcMsgType::FocusWindow.spec_payload_shape(),
            focus_window.spec_serialize().len() as int,
        ),
        spec_payload_len_ok(
            IcmIpcMsgType::BlurWindow.spec_payload_shape(),
            blur_window.spec_serialize().len() as int,
        ),
        spec_payload_len_ok(
            IcmIpcMsgType::AnimateWindow.spec_payload_shape(),
            animate_window.spec_serialize().len() as int,
        ),
        spec_payload_len_ok(
            IcmIpcMsgType::StopAnimation.spec_payload_shape(),
            stop_animation.spec_serialize().len() as int,
        ),
        spec_payload_len_ok(
            IcmIpcMsgType::SetWindowMatrix.spec_payload_shape(),
            set_window_matrix.spec_serialize().len() as int,
        ),
{
    crate::wire::lemma_words_le_len(set_window_matrix.matrix@);
}

} // verus!
