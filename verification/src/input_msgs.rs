//! Pointer, keyboard, keybind and click-region messages.

use crate::error::IpcError;
use crate::registry::{spec_payload_len_ok, IcmIpcMsgType};
use crate::wire::{
    lemma_i32_le_at, lemma_u32_le_at, read_i32_le, read_u32_le, spec_i32_at, spec_i32_le,
    spec_u32_at, spec_u32_le, write_i32_le, write_u32_le,
};
use vstd::prelude::*;

verus! {

/// Register for pointer events on a window.
#[derive(Debug, Clone, Copy, PartialEq, Eq, Structural)]
pub struct IcmMsgRegisterPointerEvent {
    pub window_id: u32,
}

impl IcmMsgRegisterPointerEvent {
    /// The payload's wire form: 4 bytes.
    pub open spec fn spec_serialize(self) -> Seq<u8> {
        spec_u32_le(self.window_id)
    }

    /// The decoder's reading of a payload held at offset `o` of `s`.
    pub open spec fn spec_matches(self, s: Seq<u8>, o: int) -> bool {
        &&& self.window_id == spec_u32_at(s, o)
    }

    /// Encode the payload.
    pub fn serialize(&self) -> (r: Vec<u8>)
        ensures
            r@ == self.spec_serialize(),
            r@.len() == 4,
    {
        let mut buf: Vec<u8> = Vec::new();
        write_u32_le(&mut buf, self.window_id);
        proof {
            assert(buf@ =~= self.spec_serialize());
        }
        buf
    }

    /// Decode a payload from the first 4 bytes of `bytes`.
    pub fn deserialize(bytes: &[u8]) -> (r: Result<(Self, usize), IpcError>)
        ensures
            match r {
                Ok((m, n)) => bytes@.len() >= 4 && n == 4 && m.spec_matches(bytes@, 0),
                Err(e) => bytes@.len() < 4 && e == IpcError::UnexpectedEnd,
            },
    {
        if bytes.len() < 4 {
            return Err(IpcError::UnexpectedEnd);
        }
        let m = Self {
            window_id: read_u32_le(bytes, 0),
        };
        Ok((m, 4))
    }

    /// Round trip at an offset: if the bytes at `o` are `m`'s encoding,
    /// a value that matches the decoder's reading there agrees with `m`.
    pub proof fn lemma_roundtrip_at(m: Self, m2: Self, s: Seq<u8>, o: int)
        requires
            0 <= o,
            o + 4 <= s.len(),
            s.subrange(o, o + 4) == m.spec_serialize(),
            m2.spec_matches(s, o),
        ensures
            m2 == m,
    {
        let ser = m.spec_serialize();
        let sub = s.subrange(o, o + 4);
        assert(ser.len() == 4);
        assert(s[o] == sub[0] && sub[0] == ser[0]);
        assert(s[o + 1] == sub[1] && sub[1] == ser[1]);
        assert(s[o + 2] == sub[2] && sub[2] == ser[2]);
        assert(s[o + 3] == sub[3] && sub[3] == ser[3]);
        lemma_u32_le_at(s, o, m.window_id);
    }

    /// Round trip: a value that matches the decoder's reading of `m`'s
    /// own encoding is `m` itself.
    pub proof fn lemma_roundtrip(m: Self, m2: Self)
        requires
            m2.spec_matches(m.spec_serialize(), 0),
        ensures
            m2 == m,
    {
        assert(m.spec_serialize().subrange(0, 4) =~= m.spec_serialize());
        Self::lemma_roundtrip_at(m, m2, m.spec_serialize(), 0);
    }
}

/// Register for keyboard events on a window.
#[derive(Debug, Clone, Copy, PartialEq, Eq, Structural)]
pub struct IcmMsgRegisterKeyboardEvent {
    pub window_id: u32,
}

impl IcmMsgRegisterKeyboardEvent {
    /// The payload's wire form: 4 bytes.
    pub open spec fn spec_serialize(self) -> Seq<u8> {
        spec_u32_le(self.window_id)
    }

    /// The decoder's reading of a payload held at offset `o` of `s`.
    pub open spec fn spec_matches(self, s: Seq<u8>, o: int) -> bool {
        &&& self.window_id == spec_u32_at(s, o)
    }

    /// Encode the payload.
    pub fn serialize(&self) -> (r: Vec<u8>)
        ensures
            r@ == self.spec_serialize(),
            r@.len() == 4,
    {
        let mut buf: Vec<u8> = Vec::new();
        write_u32_le(&mut buf, self.window_id);
        proof {
            assert(buf@ =~= self.spec_serialize());
        }
        buf
    }

    /// Decode a payload from the first 4 bytes of `bytes`.
    pub fn deserialize(bytes: &[u8]) -> (r: Result<(Self, usize), IpcError>)
        ensures
            match r {
                Ok((m, n)) => bytes@.len() >= 4 && n == 4 && m.spec_matches(bytes@, 0),
                Err(e) => bytes@.len() < 4 && e == IpcError::UnexpectedEnd,
            },
    {
        if bytes.len() < 4 {
            return Err(IpcError::UnexpectedEnd);
        }
        let m = Self {
            window_id: read_u32_le(bytes, 0),
        };
        Ok((m, 4))
    }

    /// Round trip at an offset: if the bytes at `o` are `m`'s encoding,
    /// a value that matches the decoder's reading there agrees with `m`.
    pub proof fn lemma_roundtrip_at(m: Self, m2: Self, s: Seq<u8>, o: int)
        requires
            0 <= o,
            o + 4 <= s.len(),
            s.subrange(o, o + 4) == m.spec_serialize(),
            m2.spec_matches(s, o),
        ensures
            m2 == m,
    {
        let ser = m.spec_serialize();
        let sub = s.subrange(o, o + 4);
        assert(ser.len() == 4);
        assert(s[o] == sub[0] && sub[0] == ser[0]);
        assert(s[o + 1] == sub[1] && sub[1] == ser[1]);
        assert(s[o + 2] == sub[2] && sub[2] == ser[2]);
        assert(s[o + 3] == sub[3] && sub[3] == ser[3]);
        lemma_u32_le_at(s, o, m.window_id);
    }

    /// Round trip: a value that matches the decoder's reading of `m`'s
    /// own encoding is `m` itself.
    pub proof fn lemma_roundtrip(m: Self, m2: Self)
        requires
            m2.spec_matches(m.spec_serialize(), 0),
        ensures
            m2 == m,
    {
        assert(m.spec_serialize().subrange(0, 4) =~= m.spec_serialize());
        Self::lemma_roundtrip_at(m, m2, m.spec_serialize(), 0);
    }
}

/// Ask for exclusive mouse capture on a window.
#[derive(Debug, Clone, Copy, PartialEq, Eq, Structural)]
pub struct IcmMsgQueryCaptureMouse {
    pub window_id: u32,
}

impl IcmMsgQueryCaptureMouse {
    /// The payload's wire form: 4 bytes.
    pub open spec fn spec_serialize(self) -> Seq<u8> {
        spec_u32_le(self.window_id)
    }

    /// The decoder's reading of a payload held at offset `o` of `s`.
    pub open spec fn spec_matches(self, s: Seq<u8>, o: int) -> bool {
        &&& self.window_id == spec_u32_at(s, o)
    }

    /// Encode the payload.
    pub fn serialize(&self) -> (r: Vec<u8>)
        ensures
            r@ == self.spec_serialize(),
            r@.len() == 4,
    {
        let mut buf: Vec<u8> = Vec::new();
        write_u32_le(&mut buf, self.window_id);
        proof {
            assert(buf@ =~= self.spec_serialize());
        }
        buf
    }

    /// Decode a payload from the first 4 bytes of `bytes`.
    pub fn deserialize(bytes: &[u8]) -> (r: Result<(Self, usize), IpcError>)
        ensures
            match r {
                Ok((m, n)) => bytes@.len() >= 4 && n == 4 && m.spec_matches(bytes@, 0),
                Err(e) => bytes@.len() < 4 && e == IpcError::UnexpectedEnd,
            },
    {
        if bytes.len() < 4 {
            return Err(IpcError::UnexpectedEnd);
        }
        let m = Self {
            window_id: read_u32_le(bytes, 0),
        };
        Ok((m, 4))
    }

    /// Round trip at an offset: if the bytes at `o` are `m`'s encoding,
    /// a value that matches the decoder's reading there agrees with `m`.
    pub proof fn lemma_roundtrip_at(m: Self, m2: Self, s: Seq<u8>, o: int)
        requires
            0 <= o,
            o + 4 <= s.len(),
            s.subrange(o, o + 4) == m.spec_serialize(),
            m2.spec_matches(s, o),
        ensures
            m2 == m,
    {
        let ser = m.spec_serialize();
        let sub = s.subrange(o, o + 4);
        assert(ser.len() == 4);
        assert(s[o] == sub[0] && sub[0] == ser[0]);
        assert(s[o + 1] == sub[1] && sub[1] == ser[1]);
        assert(s[o + 2] == sub[2] && sub[2] == ser[2]);
        assert(s[o + 3] == sub[3] && sub[3] == ser[3]);
        lemma_u32_le_at(s, o, m.window_id);
    }

    /// Round trip: a value that matches the decoder's reading of `m`'s
    /// own encoding is `m` itself.
    pub proof fn lemma_roundtrip(m: Self, m2: Self)
        requires
            m2.spec_matches(m.spec_serialize(), 0),
        ensures
            m2 == m,
    {
        assert(m.spec_serialize().subrange(0, 4) =~= m.spec_serialize());
        Self::lemma_roundtrip_at(m, m2, m.spec_serialize(), 0);
    }
}

/// Ask for exclusive keyboard capture on a window.
#[derive(Debug, Clone, Copy, PartialEq, Eq, Structural)]
pub struct IcmMsgQueryCaptureKeyboard {
    pub window_id: u32,
}

impl IcmMsgQueryCaptureKeyboard {
    /// The payload's wire form: 4 bytes.
    pub open spec fn spec_serialize(self) -> Seq<u8> {
        spec_u32_le(self.window_id)
    }

    /// The decoder's reading of a payload held at offset `o` of `s`.
    pub open spec fn spec_matches(self, s: Seq<u8>, o: int) -> bool {
        &&& self.window_id == spec_u32_at(s, o)
    }

    /// Encode the payload.
    pub fn serialize(&self) -> (r: Vec<u8>)
        ensures
            r@ == self.spec_serialize(),
            r@.len() == 4,
    {
        let mut buf: Vec<u8> = Vec::new();
        write_u32_le(&mut buf, self.window_id);
        proof {
            assert(buf@ =~= self.spec_serialize());
        }
        buf
    }

    /// Decode a payload from the first 4 bytes of `bytes`.
    pub fn deserialize(bytes: &[u8]) -> (r: Result<(Self, usize), IpcError>)
        ensures
            match r {
                Ok((m, n)) => bytes@.len() >= 4 && n == 4 && m.spec_matches(bytes@, 0),
                Err(e) => bytes@.len() < 4 && e == IpcError::UnexpectedEnd,
            },
    {
        if bytes.len() < 4 {
            return Err(IpcError::UnexpectedEnd);
        }
        let m = Self {
            window_id: read_u32_le(bytes, 0),
        };
        Ok((m, 4))
    }

    /// Round trip at an offset: if the bytes at `o` are `m`'s encoding,
    /// a value that matches the decoder's reading there agrees with `m`.
    pub proof fn lemma_roundtrip_at(m: Self, m2: Self, s: Seq<u8>, o: int)
        requires
            0 <= o,
            o + 4 <= s.len(),
            s.subrange(o, o + 4) == m.spec_serialize(),
            m2.spec_matches(s, o),
        ensures
            m2 == m,
    {
        let ser = m.spec_serialize();
        let sub = s.subrange(o, o + 4);
        assert(ser.len() == 4);
        assert(s[o] == sub[0] && sub[0] == ser[0]);
        assert(s[o + 1] == sub[1] && sub[1] == ser[1]);
        assert(s[o + 2] == sub[2] && sub[2] == ser[2]);
        assert(s[o + 3] == sub[3] && sub[3] == ser[3]);
        lemma_u32_le_at(s, o, m.window_id);
    }

    /// Round trip: a value that matches the decoder's reading of `m`'s
    /// own encoding is `m` itself.
    pub proof fn lemma_roundtrip(m: Self, m2: Self)
        requires
            m2.spec_matches(m.spec_serialize(), 0),
        ensures
            m2 == m,
    {
        assert(m.spec_serialize().subrange(0, 4) =~= m.spec_serialize());
        Self::lemma_roundtrip_at(m, m2, m.spec_serialize(), 0);
    }
}

/// Compositor event: pointer button or motion on a window.
#[derive(Debug, Clone, Copy, PartialEq, Eq, Structural)]
pub struct IcmMsgPointerEvent {
    pub window_id: u32,
    pub time: u32,
    pub button: u32,
    pub state: u32,
    pub x: i32,
    pub y: i32,
}

impl IcmMsgPointerEvent {
    /// The payload's wire form: 24 bytes.
    pub open spec fn spec_serialize(self) -> Seq<u8> {
        spec_u32_le(self.window_id) + spec_u32_le(self.time) + spec_u32_le(self.button) + spec_u32_le(self.state) + spec_i32_le(self.x) + spec_i32_le(self.y)
    }

    /// The decoder's reading of a payload held at offset `o` of `s`.
    pub open spec fn spec_matches(self, s: Seq<u8>, o: int) -> bool {
        &&& self.window_id == spec_u32_at(s, o)
        &&& self.time == spec_u32_at(s, o + 4)
        &&& self.button == spec_u32_at(s, o + 8)
        &&& self.state == spec_u32_at(s, o + 12)
        &&& self.x == spec_i32_at(s, o + 16)
        &&& self.y == spec_i32_at(s, o + 20)
    }

    /// Encode the payload.
    pub fn serialize(&self) -> (r: Vec<u8>)
        ensures
            r@ == self.spec_serialize(),
            r@.len() == 24,
    {
        let mut buf: Vec<u8> = Vec::new();
        write_u32_le(&mut buf, self.window_id);
        write_u32_le(&mut buf, self.time);
        write_u32_le(&mut buf, self.button);
        write_u32_le(&mut buf, self.state);
        write_i32_le(&mut buf, self.x);
        write_i32_le(&mut buf, self.y);
        proof {
            assert(buf@ =~= self.spec_serialize());
        }
        buf
    }

    /// Decode a payload from the first 24 bytes of `bytes`.
    pub fn deserialize(bytes: &[u8]) -> (r: Result<(Self, usize), IpcError>)
        ensures
            match r {
                Ok((m, n)) => bytes@.len() >= 24 && n == 24 && m.spec_matches(bytes@, 0),
                Err(e) => bytes@.len() < 24 && e == IpcError::UnexpectedEnd,
            },
    {
        if bytes.len() < 24 {
            return Err(IpcError::UnexpectedEnd);
        }
        let m = Self {
            window_id: read_u32_le(bytes, 0),
            time: read_u32_le(bytes, 4),
            button: read_u32_le(bytes, 8),
            state: read_u32_le(bytes, 12),
            x: read_i32_le(bytes, 16),
            y: read_i32_le(bytes, 20),
        };
        Ok((m, 24))
    }

    /// Round trip at an offset: if the bytes at `o` are `m`'s encoding,
    /// a value that matches the decoder's reading there agrees with `m`.
    pub proof fn lemma_roundtrip_at(m: Self, m2: Self, s: Seq<u8>, o: int)
        requires
            0 <= o,
            o + 24 <= s.len(),
            s.subrange(o, o + 24) == m.spec_serialize(),
            m2.spec_matches(s, o),
        ensures
            m2 == m,
    {
        let ser = m.spec_serialize();
        let sub = s.subrange(o, o + 24);
        assert(ser.len() == 24);
        assert(s[o] == sub[0] && sub[0] == ser[0]);
        assert(s[o + 1] == sub[1] && sub[1] == ser[1]);
        assert(s[o + 2] == sub[2] && sub[2] == ser[2]);
        assert(s[o + 3] == sub[3] && sub[3] == ser[3]);
        lemma_u32_le_at(s, o, m.window_id);
        assert(s[o + 4] == sub[4] && sub[4] == ser[4]);
        assert(s[o + 5] == sub[5] && sub[5] == ser[5]);
        assert(s[o + 6] == sub[6] && sub[6] == ser[6]);
        assert(s[o + 7] == sub[7] && sub[7] == ser[7]);
        lemma_u32_le_at(s, o + 4, m.time);
        assert(s[o + 8] == sub[8] && sub[8] == ser[8]);
        assert(s[o + 9] == sub[9] && sub[9] == ser[9]);
        assert(s[o + 10] == sub[10] && sub[10] == ser[10]);
        assert(s[o + 11] == sub[11] && sub[11] == ser[11]);
        lemma_u32_le_at(s, o + 8, m.button);
        assert(s[o + 12] == sub[12] && sub[12] == ser[12]);
        assert(s[o + 13] == sub[13] && sub[13] == ser[13]);
        assert(s[o + 14] == sub[14] && sub[14] == ser[14]);
        assert(s[o + 15] == sub[15] && sub[15] == ser[15]);
        lemma_u32_le_at(s, o + 12, m.state);
        assert(s[o + 16] == sub[16] && sub[16] == ser[16]);
        assert(s[o + 17] == sub[17] && sub[17] == ser[17]);
        assert(s[o + 18] == sub[18] && sub[18] == ser[18]);
        assert(s[o + 19] == sub[19] && sub[19] == ser[19]);
        lemma_i32_le_at(s, o + 16, m.x);
        assert(s[o + 20] == sub[20] && sub[20] == ser[20]);
        assert(s[o + 21] == sub[21] && sub[21] == ser[21]);
        assert(s[o + 22] == sub[22] && sub[22] == ser[22]);
        assert(s[o + 23] == sub[23] && sub[23] == ser[23]);
        lemma_i32_le_at(s, o + 20, m.y);
    }

    /// Round trip: a value that matches the decoder's reading of `m`'s
    /// own encoding is `m` itself.
    pub proof fn lemma_roundtrip(m: Self, m2: Self)
        requires
            m2.spec_matches(m.spec_serialize(), 0),
        ensures
            m2 == m,
    {
        assert(m.spec_serialize().subrange(0, 24) =~= m.spec_serialize());
        Self::lemma_roundtrip_at(m, m2, m.spec_serialize(), 0);
    }
}

/// Compositor event: a key changed state while a window had focus.
#[derive(Debug, Clone, Copy, PartialEq, Eq, Structural)]
pub struct IcmMsgKeyboardEvent {
    pub window_id: u32,
    pub time: u32,
    pub keycode: u32,
    pub state: u32,
    pub modifiers: u32,
}

impl IcmMsgKeyboardEvent {
    /// The payload's wire form: 20 bytes.
    pub open spec fn spec_serialize(self) -> Seq<u8> {
        spec_u32_le(self.window_id) + spec_u32_le(self.time) + spec_u32_le(self.keycode) + spec_u32_le(self.state) + spec_u32_le(self.modifiers)
    }

    /// The decoder's reading of a payload held at offset `o` of `s`.
    pub open spec fn spec_matches(self, s: Seq<u8>, o: int) -> bool {
        &&& self.window_id == spec_u32_at(s, o)
        &&& self.time == spec_u32_at(s, o + 4)
        &&& self.keycode == spec_u32_at(s, o + 8)
        &&& self.state == spec_u32_at(s, o + 12)
        &&& self.modifiers == spec_u32_at(s, o + 16)
    }

    /// Encode the payload.
    pub fn serialize(&self) -> (r: Vec<u8>)
        ensures
            r@ == self.spec_serialize(),
            r@.len() == 20,
    {
        let mut buf: Vec<u8> = Vec::new();
        write_u32_le(&mut buf, self.window_id);
        write_u32_le(&mut buf, self.time);
        write_u32_le(&mut buf, self.keycode);
        write_u32_le(&mut buf, self.state);
        write_u32_le(&mut buf, self.modifiers);
        proof {
            assert(buf@ =~= self.spec_serialize());
        }
        buf
    }

    /// Decode a payload from the first 20 bytes of `bytes`.
    pub fn deserialize(bytes: &[u8]) -> (r: Result<(Self, usize), IpcError>)
        ensures
            match r {
                Ok((m, n)) => bytes@.len() >= 20 && n == 20 && m.spec_matches(bytes@, 0),
                Err(e) => bytes@.len() < 20 && e == IpcError::UnexpectedEnd,
            },
    {
        if bytes.len() < 20 {
            return Err(IpcError::UnexpectedEnd);
        }
        let m = Self {
            window_id: read_u32_le(bytes, 0),
            time: read_u32_le(bytes, 4),
            keycode: read_u32_le(bytes, 8),
            state: read_u32_le(bytes, 12),
            modifiers: read_u32_le(bytes, 16),
        };
        Ok((m, 20))
    }

    /// Round trip at an offset: if the bytes at `o` are `m`'s encoding,
    /// a value that matches the decoder's reading there agrees with `m`.
    pub proof fn lemma_roundtrip_at(m: Self, m2: Self, s: Seq<u8>, o: int)
        requires
            0 <= o,
            o + 20 <= s.len(),
            s.subrange(o, o + 20) == m.spec_serialize(),
            m2.spec_matches(s, o),
        ensures
            m2 == m,
    {
        let ser = m.spec_serialize();
        let sub = s.subrange(o, o + 20);
        assert(ser.len() == 20);
        assert(s[o] == sub[0] && sub[0] == ser[0]);
        assert(s[o + 1] == sub[1] && sub[1] == ser[1]);
        assert(s[o + 2] == sub[2] && sub[2] == ser[2]);
        assert(s[o + 3] == sub[3] && sub[3] == ser[3]);
        lemma_u32_le_at(s, o, m.window_id);
        assert(s[o + 4] == sub[4] && sub[4] == ser[4]);
        assert(s[o + 5] == sub[5] && sub[5] == ser[5]);
        assert(s[o + 6] == sub[6] && sub[6] == ser[6]);
        assert(s[o + 7] == sub[7] && sub[7] == ser[7]);
        lemma_u32_le_at(s, o + 4, m.time);
        assert(s[o + 8] == sub[8] && sub[8] == ser[8]);
        assert(s[o + 9] == sub[9] && sub[9] == ser[9]);
        assert(s[o + 10] == sub[10] && sub[10] == ser[10]);
        assert(s[o + 11] == sub[11] && sub[11] == ser[11]);
        lemma_u32_le_at(s, o + 8, m.keycode);
        assert(s[o + 12] == sub[12] && sub[12] == ser[12]);
        assert(s[o + 13] == sub[13] && sub[13] == ser[13]);
        assert(s[o + 14] == sub[14] && sub[14] == ser[14]);
        assert(s[o + 15] == sub[15] && sub[15] == ser[15]);
        lemma_u32_le_at(s, o + 12, m.state);
        assert(s[o + 16] == sub[16] && sub[16] == ser[16]);
        assert(s[o + 17] == sub[17] && sub[17] == ser[17]);
        assert(s[o + 18] == sub[18] && sub[18] == ser[18]);
        assert(s[o + 19] == sub[19] && sub[19] == ser[19]);
        lemma_u32_le_at(s, o + 16, m.modifiers);
    }

    /// Round trip: a value that matches the decoder's reading of `m`'s
    /// own encoding is `m` itself.
    pub proof fn lemma_roundtrip(m: Self, m2: Self)
        requires
            m2.spec_matches(m.spec_serialize(), 0),
        ensures
            m2 == m,
    {
        assert(m.spec_serialize().subrange(0, 20) =~= m.spec_serialize());
        Self::lemma_roundtrip_at(m, m2, m.spec_serialize(), 0);
    }
}

/// Register a global key combination.
#[derive(Debug, Clone, Copy, PartialEq, Eq, Structural)]
pub struct IcmMsgRegisterKeybind {
    pub keybind_id: u32,
    pub modifiers: u32,
    pub keycode: u32,
}

impl IcmMsgRegisterKeybind {
    /// The payload's wire form: 12 bytes.
    pub open spec fn spec_serialize(self) -> Seq<u8> {
        spec_u32_le(self.keybind_id) + spec_u32_le(self.modifiers) + spec_u32_le(self.keycode)
    }

    /// The decoder's reading of a payload held at offset `o` of `s`.
    pub open spec fn spec_matches(self, s: Seq<u8>, o: int) -> bool {
        &&& self.keybind_id == spec_u32_at(s, o)
        &&& self.modifiers == spec_u32_at(s, o + 4)
        &&& self.keycode == spec_u32_at(s, o + 8)
    }

    /// Encode the payload.
    pub fn serialize(&self) -> (r: Vec<u8>)
        ensures
            r@ == self.spec_serialize(),
            r@.len() == 12,
    {
        let mut buf: Vec<u8> = Vec::new();
        write_u32_le(&mut buf, self.keybind_id);
        write_u32_le(&mut buf, self.modifiers);
        write_u32_le(&mut buf, self.keycode);
        proof {
            assert(buf@ =~= self.spec_serialize());
        }
        buf
    }

    /// Decode a payload from the first 12 bytes of `bytes`.
    pub fn deserialize(bytes: &[u8]) -> (r: Result<(Self, usize), IpcError>)
        ensures
            match r {
                Ok((m, n)) => bytes@.len() >= 12 && n == 12 && m.spec_matches(bytes@, 0),
                Err(e) => bytes@.len() < 12 && e == IpcError::UnexpectedEnd,
            },
    {
        if bytes.len() < 12 {
            return Err(IpcError::UnexpectedEnd);
        }
        let m = Self {
            keybind_id: read_u32_le(bytes, 0),
            modifiers: read_u32_le(bytes, 4),
            keycode: read_u32_le(bytes, 8),
        };
        Ok((m, 12))
    }

    /// Round trip at an offset: if the bytes at `o` are `m`'s encoding,
    /// a value that matches the decoder's reading there agrees with `m`.
    pub proof fn lemma_roundtrip_at(m: Self, m2: Self, s: Seq<u8>, o: int)
        requires
            0 <= o,
            o + 12 <= s.len(),
            s.subrange(o, o + 12) == m.spec_serialize(),
            m2.spec_matches(s, o),
        ensures
            m2 == m,
    {
        let ser = m.spec_serialize();
        let sub = s.subrange(o, o + 12);
        assert(ser.len() == 12);
        assert(s[o] == sub[0] && sub[0] == ser[0]);
        assert(s[o + 1] == sub[1] && sub[1] == ser[1]);
        assert(s[o + 2] == sub[2] && sub[2] == ser[2]);
        assert(s[o + 3] == sub[3] && sub[3] == ser[3]);
        lemma_u32_le_at(s, o, m.keybind_id);
        assert(s[o + 4] == sub[4] && sub[4] == ser[4]);
        assert(s[o + 5] == sub[5] && sub[5] == ser[5]);
        assert(s[o + 6] == sub[6] && sub[6] == ser[6]);
        assert(s[o + 7] == sub[7] && sub[7] == ser[7]);
        lemma_u32_le_at(s, o + 4, m.modifiers);
        assert(s[o + 8] == sub[8] && sub[8] == ser[8]);
        assert(s[o + 9] == sub[9] && sub[9] == ser[9]);
        assert(s[o + 10] == sub[10] && sub[10] == ser[10]);
        assert(s[o + 11] == sub[11] && sub[11] == ser[11]);
        lemma_u32_le_at(s, o + 8, m.keycode);
    }

    /// Round trip: a value that matches the decoder's reading of `m`'s
    /// own encoding is `m` itself.
    pub proof fn lemma_roundtrip(m: Self, m2: Self)
        requires
            m2.spec_matches(m.spec_serialize(), 0),
        ensures
            m2 == m,
    {
        assert(m.spec_serialize().subrange(0, 12) =~= m.spec_serialize());
        Self::lemma_roundtrip_at(m, m2, m.spec_serialize(), 0);
    }
}

/// Unregister a global key combination.
#[derive(Debug, Clone, Copy, PartialEq, Eq, Structural)]
pub struct IcmMsgUnregisterKeybind {
    pub keybind_id: u32,
}

impl IcmMsgUnregisterKeybind {
    /// The payload's wire form: 4 bytes.
    pub open spec fn spec_serialize(self) -> Seq<u8> {
        spec_u32_le(self.keybind_id)
    }

    /// The decoder's reading of a payload held at offset `o` of `s`.
    pub open spec fn spec_matches(self, s: Seq<u8>, o: int) -> bool {
        &&& self.keybind_id == spec_u32_at(s, o)
    }

    /// Encode the payload.
    pub fn serialize(&self) -> (r: Vec<u8>)
        ensures
            r@ == self.spec_serialize(),
            r@.len() == 4,
    {
        let mut buf: Vec<u8> = Vec::new();
        write_u32_le(&mut buf, self.keybind_id);
        proof {
            assert(buf@ =~= self.spec_serialize());
        }
        buf
    }

    /// Decode a payload from the first 4 bytes of `bytes`.
    pub fn deserialize(bytes: &[u8]) -> (r: Result<(Self, usize), IpcError>)
        ensures
            match r {
                Ok((m, n)) => bytes@.len() >= 4 && n == 4 && m.spec_matches(bytes@, 0),
                Err(e) => bytes@.len() < 4 && e == IpcError::UnexpectedEnd,
            },
    {
        if bytes.len() < 4 {
            return Err(IpcError::UnexpectedEnd);
        }
        let m = Self {
            keybind_id: read_u32_le(bytes, 0),
        };
        Ok((m, 4))
    }

    /// Round trip at an offset: if the bytes at `o` are `m`'s encoding,
    /// a value that matches the decoder's reading there agrees with `m`.
    pub proof fn lemma_roundtrip_at(m: Self, m2: Self, s: Seq<u8>, o: int)
        requires
            0 <= o,
            o + 4 <= s.len(),
            s.subrange(o, o + 4) == m.spec_serialize(),
            m2.spec_matches(s, o),
        ensures
            m2 == m,
    {
        let ser = m.spec_serialize();
        let sub = s.subrange(o, o + 4);
        assert(ser.len() == 4);
        assert(s[o] == sub[0] && sub[0] == ser[0]);
        assert(s[o + 1] == sub[1] && sub[1] == ser[1]);
        assert(s[o + 2] == sub[2] && sub[2] == ser[2]);
        assert(s[o + 3] == sub[3] && sub[3] == ser[3]);
        lemma_u32_le_at(s, o, m.keybind_id);
    }

    /// Round trip: a value that matches the decoder's reading of `m`'s
    /// own encoding is `m` itself.
    pub proof fn lemma_roundtrip(m: Self, m2: Self)
        requires
            m2.spec_matches(m.spec_serialize(), 0),
        ensures
            m2 == m,
    {
        assert(m.spec_serialize().subrange(0, 4) =~= m.spec_serialize());
        Self::lemma_roundtrip_at(m, m2, m.spec_serialize(), 0);
    }
}

/// Compositor event: a registered key combination fired.
#[derive(Debug, Clone, Copy, PartialEq, Eq, Structural)]
pub struct IcmMsgKeybindEvent {
    pub keybind_id: u32,
}

impl IcmMsgKeybindEvent {
    /// The payload's wire form: 4 bytes.
    pub open spec fn spec_serialize(self) -> Seq<u8> {
        spec_u32_le(self.keybind_id)
    }

    /// The decoder's reading of a payload held at offset `o` of `s`.
    pub open spec fn spec_matches(self, s: Seq<u8>, o: int) -> bool {
        &&& self.keybind_id == spec_u32_at(s, o)
    }

    /// Encode the payload.
    pub fn serialize(&self) -> (r: Vec<u8>)
        ensures
            r@ == self.spec_serialize(),
            r@.len() == 4,
    {
        let mut buf: Vec<u8> = Vec::new();
        write_u32_le(&mut buf, self.keybind_id);
        proof {
            assert(buf@ =~= self.spec_serialize());
        }
        buf
    }

    /// Decode a payload from the first 4 bytes of `bytes`.
    pub fn deserialize(bytes: &[u8]) -> (r: Result<(Self, usize), IpcError>)
        ensures
            match r {
                Ok((m, n)) => bytes@.len() >= 4 && n == 4 && m.spec_matches(bytes@, 0),
                Err(e) => bytes@.len() < 4 && e == IpcError::UnexpectedEnd,
            },
    {
        if bytes.len() < 4 {
            return Err(IpcError::UnexpectedEnd);
        }
        let m = Self {
            keybind_id: read_u32_le(bytes, 0),
        };
        Ok((m, 4))
    }

    /// Round trip at an offset: if the bytes at `o` are `m`'s encoding,
    /// a value that matches the decoder's reading there agrees with `m`.
    pub proof fn lemma_roundtrip_at(m: Self, m2: Self, s: Seq<u8>, o: int)
        requires
            0 <= o,
            o + 4 <= s.len(),
            s.subrange(o, o + 4) == m.spec_serialize(),
            m2.spec_matches(s, o),
        ensures
            m2 == m,
    {
        let ser = m.spec_serialize();
        let sub = s.subrange(o, o + 4);
        assert(ser.len() == 4);
        assert(s[o] == sub[0] && sub[0] == ser[0]);
        assert(s[o + 1] == sub[1] && sub[1] == ser[1]);
        assert(s[o + 2] == sub[2] && sub[2] == ser[2]);
        assert(s[o + 3] == sub[3] && sub[3] == ser[3]);
        lemma_u32_le_at(s, o, m.keybind_id);
    }

    /// Round trip: a value that matches the decoder's reading of `m`'s
    /// own encoding is `m` itself.
    pub proof fn lemma_roundtrip(m: Self, m2: Self)
        requires
            m2.spec_matches(m.spec_serialize(), 0),
        ensures
            m2 == m,
    {
        assert(m.spec_serialize().subrange(0, 4) =~= m.spec_serialize());
        Self::lemma_roundtrip_at(m, m2, m.spec_serialize(), 0);
    }
}

/// Register a click region within a window.
#[derive(Debug, Clone, Copy, PartialEq, Eq, Structural)]
pub struct IcmMsgRegisterClickRegion {
    pub window_id: u32,
    pub region_id: u32,
    pub x: i32,
    pub y: i32,
    pub width: u32,
    pub height: u32,
}

impl IcmMsgRegisterClickRegion {
    /// The payload's wire form: 24 bytes.
    pub open spec fn spec_serialize(self) -> Seq<u8> {
        spec_u32_le(self.window_id) + spec_u32_le(self.region_id) + spec_i32_le(self.x) + spec_i32_le(self.y) + spec_u32_le(self.width) + spec_u32_le(self.height)
    }

    /// The decoder's reading of a payload held at offset `o` of `s`.
    pub open spec fn spec_matches(self, s: Seq<u8>, o: int) -> bool {
        &&& self.window_id == spec_u32_at(s, o)
        &&& self.region_id == spec_u32_at(s, o + 4)
        &&& self.x == spec_i32_at(s, o + 8)
        &&& self.y == spec_i32_at(s, o + 12)
        &&& self.width == spec_u32_at(s, o + 16)
        &&& self.height == spec_u32_at(s, o + 20)
    }

    /// Encode the payload.
    pub fn serialize(&self) -> (r: Vec<u8>)
        ensures
            r@ == self.spec_serialize(),
            r@.len() == 24,
    {
        let mut buf: Vec<u8> = Vec::new();
        write_u32_le(&mut buf, self.window_id);
        write_u32_le(&mut buf, self.region_id);
        write_i32_le(&mut buf, self.x);
        write_i32_le(&mut buf, self.y);
        write_u32_le(&mut buf, self.width);
        write_u32_le(&mut buf, self.height);
        proof {
            assert(buf@ =~= self.spec_serialize());
        }
        buf
    }

    /// Decode a payload from the first 24 bytes of `bytes`.
    pub fn deserialize(bytes: &[u8]) -> (r: Result<(Self, usize), IpcError>)
        ensures
            match r {
                Ok((m, n)) => bytes@.len() >= 24 && n == 24 && m.spec_matches(bytes@, 0),
                Err(e) => bytes@.len() < 24 && e == IpcError::UnexpectedEnd,
            },
    {
        if bytes.len() < 24 {
            return Err(IpcError::UnexpectedEnd);
        }
        let m = Self {
            window_id: read_u32_le(bytes, 0),
            region_id: read_u32_le(bytes, 4),
            x: read_i32_le(bytes, 8),
            y: read_i32_le(bytes, 12),
            width: read_u32_le(bytes, 16),
            height: read_u32_le(bytes, 20),
        };
        Ok((m, 24))
    }

    /// Round trip at an offset: if the bytes at `o` are `m`'s encoding,
    /// a value that matches the decoder's reading there agrees with `m`.
    pub proof fn lemma_roundtrip_at(m: Self, m2: Self, s: Seq<u8>, o: int)
        requires
            0 <= o,
            o + 24 <= s.len(),
            s.subrange(o, o + 24) == m.spec_serialize(),
            m2.spec_matches(s, o),
        ensures
            m2 == m,
    {
        let ser = m.spec_serialize();
        let sub = s.subrange(o, o + 24);
        assert(ser.len() == 24);
        assert(s[o] == sub[0] && sub[0] == ser[0]);
        assert(s[o + 1] == sub[1] && sub[1] == ser[1]);
        assert(s[o + 2] == sub[2] && sub[2] == ser[2]);
        assert(s[o + 3] == sub[3] && sub[3] == ser[3]);
        lemma_u32_le_at(s, o, m.window_id);
        assert(s[o + 4] == sub[4] && sub[4] == ser[4]);
        assert(s[o + 5] == sub[5] && sub[5] == ser[5]);
        assert(s[o + 6] == sub[6] && sub[6] == ser[6]);
        assert(s[o + 7] == sub[7] && sub[7] == ser[7]);
        lemma_u32_le_at(s, o + 4, m.region_id);
        assert(s[o + 8] == sub[8] && sub[8] == ser[8]);
        assert(s[o + 9] == sub[9] && sub[9] == ser[9]);
        assert(s[o + 10] == sub[10] && sub[10] == ser[10]);
        assert(s[o + 11] == sub[11] && sub[11] == ser[11]);
        lemma_i32_le_at(s, o + 8, m.x);
        assert(s[o + 12] == sub[12] && sub[12] == ser[12]);
        assert(s[o + 13] == sub[13] && sub[13] == ser[13]);
        assert(s[o + 14] == sub[14] && sub[14] == ser[14]);
        assert(s[o + 15] == sub[15] && sub[15] == ser[15]);
        lemma_i32_le_at(s, o + 12, m.y);
        assert(s[o + 16] == sub[16] && sub[16] == ser[16]);
        assert(s[o + 17] == sub[17] && sub[17] == ser[17]);
        assert(s[o + 18] == sub[18] && sub[18] == ser[18]);
        assert(s[o + 19] == sub[19] && sub[19] == ser[19]);
        lemma_u32_le_at(s, o + 16, m.width);
        assert(s[o + 20] == sub[20] && sub[20] == ser[20]);
        assert(s[o + 21] == sub[21] && sub[21] == ser[21]);
        assert(s[o + 22] == sub[22] && sub[22] == ser[22]);
        assert(s[o + 23] == sub[23] && sub[23] == ser[23]);
        lemma_u32_le_at(s, o + 20, m.height);
    }

    /// Round trip: a value that matches the decoder's reading of `m`'s
    /// own encoding is `m` itself.
    pub proof fn lemma_roundtrip(m: Self, m2: Self)
        requires
            m2.spec_matches(m.spec_serialize(), 0),
        ensures
            m2 == m,
    {
        assert(m.spec_serialize().subrange(0, 24) =~= m.spec_serialize());
        Self::lemma_roundtrip_at(m, m2, m.spec_serialize(), 0);
    }
}

/// Unregister a click region.
#[derive(Debug, Clone, Copy, PartialEq, Eq, Structural)]
pub struct IcmMsgUnregisterClickRegion {
    pub region_id: u32,
}

impl IcmMsgUnregisterClickRegion {
    /// The payload's wire form: 4 bytes.
    pub open spec fn spec_serialize(self) -> Seq<u8> {
        spec_u32_le(self.region_id)
    }

    /// The decoder's reading of a payload held at offset `o` of `s`.
    pub open spec fn spec_matches(self, s: Seq<u8>, o: int) -> bool {
        &&& self.region_id == spec_u32_at(s, o)
    }

    /// Encode the payload.
    pub fn serialize(&self) -> (r: Vec<u8>)
        ensures
            r@ == self.spec_serialize(),
            r@.len() == 4,
    {
        let mut buf: Vec<u8> = Vec::new();
        write_u32_le(&mut buf, self.region_id);
        proof {
            assert(buf@ =~= self.spec_serialize());
        }
        buf
    }

    /// Decode a payload from the first 4 bytes of `bytes`.
    pub fn deserialize(bytes: &[u8]) -> (r: Result<(Self, usize), IpcError>)
        ensures
            match r {
                Ok((m, n)) => bytes@.len() >= 4 && n == 4 && m.spec_matches(bytes@, 0),
                Err(e) => bytes@.len() < 4 && e == IpcError::UnexpectedEnd,
            },
    {
        if bytes.len() < 4 {
            return Err(IpcError::UnexpectedEnd);
        }
        let m = Self {
            region_id: read_u32_le(bytes, 0),
        };
        Ok((m, 4))
    }

    /// Round trip at an offset: if the bytes at `o` are `m`'s encoding,
    /// a value that matches the decoder's reading there agrees with `m`.
    pub proof fn lemma_roundtrip_at(m: Self, m2: Self, s: Seq<u8>, o: int)
        requires
            0 <= o,
            o + 4 <= s.len(),
            s.subrange(o, o + 4) == m.spec_serialize(),
            m2.spec_matches(s, o),
        ensures
            m2 == m,
    {
        let ser = m.spec_serialize();
        let sub = s.subrange(o, o + 4);
        assert(ser.len() == 4);
        assert(s[o] == sub[0] && sub[0] == ser[0]);
        assert(s[o + 1] == sub[1] && sub[1] == ser[1]);
        assert(s[o + 2] == sub[2] && sub[2] == ser[2]);
        assert(s[o + 3] == sub[3] && sub[3] == ser[3]);
        lemma_u32_le_at(s, o, m.region_id);
    }

    /// Round trip: a value that matches the decoder's reading of `m`'s
    /// own encoding is `m` itself.
    pub proof fn lemma_roundtrip(m: Self, m2: Self)
        requires
            m2.spec_matches(m.spec_serialize(), 0),
        ensures
            m2 == m,
    {
        assert(m.spec_serialize().subrange(0, 4) =~= m.spec_serialize());
        Self::lemma_roundtrip_at(m, m2, m.spec_serialize(), 0);
    }
}

/// Compositor event: a click region was activated.
#[derive(Debug, Clone, Copy, PartialEq, Eq, Structural)]
pub struct IcmMsgClickRegionEvent {
    pub region_id: u32,
    pub button: u32,
    pub state: u32,
}

impl IcmMsgClickRegionEvent {
    /// The payload's wire form: 12 bytes.
    pub open spec fn spec_serialize(self) -> Seq<u8> {
        spec_u32_le(self.region_id) + spec_u32_le(self.button) + spec_u32_le(self.state)
    }

    /// The decoder's reading of a payload held at offset `o` of `s`.
    pub open spec fn spec_matches(self, s: Seq<u8>, o: int) -> bool {
        &&& self.region_id == spec_u32_at(s, o)
        &&& self.button == spec_u32_at(s, o + 4)
        &&& self.state == spec_u32_at(s, o + 8)
    }

    /// Encode the payload.
    pub fn serialize(&self) -> (r: Vec<u8>)
        ensures
            r@ == self.spec_serialize(),
            r@.len() == 12,
    {
        let mut buf: Vec<u8> = Vec::new();
        write_u32_le(&mut buf, self.region_id);
        write_u32_le(&mut buf, self.button);
        write_u32_le(&mut buf, self.state);
        proof {
            assert(buf@ =~= self.spec_serialize());
        }
        buf
    }

    /// Decode a payload from the first 12 bytes of `bytes`.
    pub fn deserialize(bytes: &[u8]) -> (r: Result<(Self, usize), IpcError>)
        ensures
            match r {
                Ok((m, n)) => bytes@.len() >= 12 && n == 12 && m.spec_matches(bytes@, 0),
                Err(e) => bytes@.len() < 12 && e == IpcError::UnexpectedEnd,
            },
    {
        if bytes.len() < 12 {
            return Err(IpcError::UnexpectedEnd);
        }
        let m = Self {
            region_id: read_u32_le(bytes, 0),
            button: read_u32_le(bytes, 4),
            state: read_u32_le(bytes, 8),
        };
        Ok((m, 12))
    }

    /// Round trip at an offset: if the bytes at `o` are `m`'s encoding,
    /// a value that matches the decoder's reading there agrees with `m`.
    pub proof fn lemma_roundtrip_at(m: Self, m2: Self, s: Seq<u8>, o: int)
        requires
            0 <= o,
            o + 12 <= s.len(),
            s.subrange(o, o + 12) == m.spec_serialize(),
            m2.spec_matches(s, o),
        ensures
            m2 == m,
    {
        let ser = m.spec_serialize();
        let sub = s.subrange(o, o + 12);
        assert(ser.len() == 12);
        assert(s[o] == sub[0] && sub[0] == ser[0]);
        assert(s[o + 1] == sub[1] && sub[1] == ser[1]);
        assert(s[o + 2] == sub[2] && sub[2] == ser[2]);
        assert(s[o + 3] == sub[3] && sub[3] == ser[3]);
        lemma_u32_le_at(s, o, m.region_id);
        assert(s[o + 4] == sub[4] && sub[4] == ser[4]);
        assert(s[o + 5] == sub[5] && sub[5] == ser[5]);
        assert(s[o + 6] == sub[6] && sub[6] == ser[6]);
        assert(s[o + 7] == sub[7] && sub[7] == ser[7]);
        lemma_u32_le_at(s, o + 4, m.button);
        assert(s[o + 8] == sub[8] && sub[8] == ser[8]);
        assert(s[o + 9] == sub[9] && sub[9] == ser[9]);
        assert(s[o + 10] == sub[10] && sub[10] == ser[10]);
        assert(s[o + 11] == sub[11] && sub[11] == ser[11]);
        lemma_u32_le_at(s, o + 8, m.state);
    }

    /// Round trip: a value that matches the decoder's reading of `m`'s
    /// own encoding is `m` itself.
    pub proof fn lemma_roundtrip(m: Self, m2: Self)
        requires
            m2.spec_matches(m.spec_serialize(), 0),
        ensures
            m2 == m,
    {
        assert(m.spec_serialize().subrange(0, 12) =~= m.spec_serialize());
        Self::lemma_roundtrip_at(m, m2, m.spec_serialize(), 0);
    }
}

/// Register for pointer events regardless of focus.  Carries no payload.
#[derive(Debug, Clone, Copy, PartialEq, Eq, Structural)]
pub struct IcmMsgRegisterGlobalPointerEvent;

impl IcmMsgRegisterGlobalPointerEvent {
    /// The payload's wire form: empty.
    pub open spec fn spec_serialize(self) -> Seq<u8> {
        Seq::empty()
    }

    /// Encode the payload: no bytes.
    pub fn serialize(&self) -> (r: Vec<u8>)
        ensures
            r@ == self.spec_serialize(),
            r@.len() == 0,
    {
        Vec::new()
    }

    /// Decode the payload: consumes no bytes and cannot fail.
    pub fn deserialize(_bytes: &[u8]) -> (r: Result<(Self, usize), IpcError>)
        ensures
            r == Ok::<(IcmMsgRegisterGlobalPointerEvent, usize), IpcError>((IcmMsgRegisterGlobalPointerEvent, 0)),
    {
        Ok((IcmMsgRegisterGlobalPointerEvent, 0))
    }
}

/// Register for keyboard events regardless of focus.  Carries no payload.
#[derive(Debug, Clone, Copy, PartialEq, Eq, Structural)]
pub struct IcmMsgRegisterGlobalKeyboardEvent;

impl IcmMsgRegisterGlobalKeyboardEvent {
    /// The payload's wire form: empty.
    pub open spec fn spec_serialize(self) -> Seq<u8> {
        Seq::empty()
    }

    /// Encode the payload: no bytes.
    pub fn serialize(&self) -> (r: Vec<u8>)
        ensures
            r@ == self.spec_serialize(),
            r@.len() == 0,
    {
        Vec::new()
    }

    /// Decode the payload: consumes no bytes and cannot fail.
    pub fn deserialize(_bytes: &[u8]) -> (r: Result<(Self, usize), IpcError>)
        ensures
            r == Ok::<(IcmMsgRegisterGlobalKeyboardEvent, usize), IpcError>((IcmMsgRegisterGlobalKeyboardEvent, 0)),
    {
        Ok((IcmMsgRegisterGlobalKeyboardEvent, 0))
    }
}

/// Register for global mouse capture.  Carries no payload.
#[derive(Debug, Clone, Copy, PartialEq, Eq, Structural)]
pub struct IcmMsgRegisterGlobalCaptureMouse;

impl IcmMsgRegisterGlobalCaptureMouse {
    /// The payload's wire form: empty.
    pub open spec fn spec_serialize(self) -> Seq<u8> {
        Seq::empty()
    }

    /// Encode the payload: no bytes.
    pub fn serialize(&self) -> (r: Vec<u8>)
        ensures
            r@ == self.spec_serialize(),
            r@.len() == 0,
    {
        Vec::new()
    }

    /// Decode the payload: consumes no bytes and cannot fail.
    pub fn deserialize(_bytes: &[u8]) -> (r: Result<(Self, usize), IpcError>)
        ensures
            r == Ok::<(IcmMsgRegisterGlobalCaptureMouse, usize), IpcError>((IcmMsgRegisterGlobalCaptureMouse, 0)),
    {
        Ok((IcmMsgRegisterGlobalCaptureMouse, 0))
    }
}

/// Register for global keyboard capture.  Carries no payload.
#[derive(Debug, Clone, Copy, PartialEq, Eq, Structural)]
pub struct IcmMsgRegisterGlobalCaptureKeyboard;

impl IcmMsgRegisterGlobalCaptureKeyboard {
    /// The payload's wire form: empty.
    pub open spec fn spec_serialize(self) -> Seq<u8> {
        Seq::empty()
    }

    /// Encode the payload: no bytes.
    pub fn serialize(&self) -> (r: Vec<u8>)
        ensures
            r@ == self.spec_serialize(),
            r@.len() == 0,
    {
        Vec::new()
    }

    /// Decode the payload: consumes no bytes and cannot fail.
    pub fn deserialize(_bytes: &[u8]) -> (r: Result<(Self, usize), IpcError>)
        ensures
            r == Ok::<(IcmMsgRegisterGlobalCaptureKeyboard, usize), IpcError>((IcmMsgRegisterGlobalCaptureKeyboard, 0)),
    {
        Ok((IcmMsgRegisterGlobalCaptureKeyboard, 0))
    }
}

/// Release global keyboard capture.  Carries no payload.
#[derive(Debug, Clone, Copy, PartialEq, Eq, Structural)]
pub struct IcmMsgUnregisterGlobalCaptureKeyboard;

impl IcmMsgUnregisterGlobalCaptureKeyboard {
    /// The payload's wire form: empty.
    pub open spec fn spec_serialize(self) -> Seq<u8> {
        Seq::empty()
    }

    /// Encode the payload: no bytes.
    pub fn serialize(&self) -> (r: Vec<u8>)
        ensures
            r@ == self.spec_serialize(),
            r@.len() == 0,
    {
        Vec::new()
    }

    /// Decode the payload: consumes no bytes and cannot fail.
    pub fn deserialize(_bytes: &[u8]) -> (r: Result<(Self, usize), IpcError>)
        ensures
            r == Ok::<(IcmMsgUnregisterGlobalCaptureKeyboard, usize), IpcError>((IcmMsgUnregisterGlobalCaptureKeyboard, 0)),
    {
        Ok((IcmMsgUnregisterGlobalCaptureKeyboard, 0))
    }
}

/// Release global mouse capture.  Carries no payload.
#[derive(Debug, Clone, Copy, PartialEq, Eq, Structural)]
pub struct IcmMsgUnregisterGlobalCaptureMouse;

impl IcmMsgUnregisterGlobalCaptureMouse {
    /// The payload's wire form: empty.
    pub open spec fn spec_serialize(self) -> Seq<u8> {
        Seq::empty()
    }

    /// Encode the payload: no bytes.
    pub fn serialize(&self) -> (r: Vec<u8>)
        ensures
            r@ == self.spec_serialize(),
            r@.len() == 0,
    {
        Vec::new()
    }

    /// Decode the payload: consumes no bytes and cannot fail.
    pub fn deserialize(_bytes: &[u8]) -> (r: Result<(Self, usize), IpcError>)
        ensures
            r == Ok::<(IcmMsgUnregisterGlobalCaptureMouse, usize), IpcError>((IcmMsgUnregisterGlobalCaptureMouse, 0)),
    {
        Ok((IcmMsgUnregisterGlobalCaptureMouse, 0))
    }
}

/// The registry's size table agrees with these codecs: every encoded
/// payload satisfies the length rule registered for its message type.
pub proof fn lemma_sizes_match_registry(
    register_pointer_event: IcmMsgRegisterPointerEvent,
    register_keyboard_event: IcmMsgRegisterKeyboardEvent,
    query_capture_mouse: IcmMsgQueryCaptureMouse,
    query_capture_keyboard: IcmMsgQueryCaptureKeyboard,
    pointer_event: IcmMsgPointerEvent,
    keyboard_event: IcmMsgKeyboardEvent,
    register_keybind: IcmMsgRegisterKeybind,
    unregister_keybind: IcmMsgUnregisterKeybind,
    keybind_event: IcmMsgKeybindEvent,
    register_click_region: IcmMsgRegisterClickRegion,
    unregister_click_region: IcmMsgUnregisterClickRegion,
    click_region_event: IcmMsgClickRegionEvent,
    register_global_pointer_event: IcmMsgRegisterGlobalPointerEvent,
    register_global_keyboard_event: IcmMsgRegisterGlobalKeyboardEvent,
    register_global_capture_mouse: IcmMsgRegisterGlobalCaptureMouse,
    register_global_capture_keyboard: IcmMsgRegisterGlobalCaptureKeyboard,
    unregister_global_capture_keyboard: IcmMsgUnregisterGlobalCaptureKeyboard,
    unregister_global_capture_mouse: IcmMsgUnregisterGlobalCaptureMouse,
)
    ensures
        spec_payload_len_ok(
            IcmIpcMsgType::RegisterPointerEvent.spec_payload_shape(),
            register_pointer_event.spec_serialize().len() as int,
        ),
        spec_payload_len_ok(
            IcmIpcMsgType::RegisterKeyboardEvent.spec_payload_shape(),
            register_keyboard_event.spec_serialize().len() as int,
        ),
        spec_payload_len_ok(
            IcmIpcMsgType::QueryCaptureMouse.spec_payload_shape(),
            query_capture_mouse.spec_serialize().len() as int,
        ),
        spec_payload_len_ok(
            IcmIpcMsgType::QueryCaptureKeyboard.spec_payload_shape(),
            query_capture_keyboard.spec_serialize().len() as int,
        ),
        spec_payload_len_ok(
            IcmIpcMsgType::PointerEvent.spec_payload_shape(),
            pointer_event.spec_serialize().len() as int,
        ),
        spec_payload_len_ok(
            IcmIpcMsgType::KeyboardEvent.spec_payload_shape(),
            keyboard_event.spec_serialize().len() as int,
        ),
        spec_payload_len_ok(
            IcmIpcMsgType::RegisterKeybind.spec_payload_shape(),
            register_keybind.spec_serialize().len() as int,
        ),
        spec_payload_len_ok(
            IcmIpcMsgType::UnregisterKeybind.spec_payload_shape(),
            unregister_keybind.spec_serialize().len() as int,
        ),
        spec_payload_len_ok(
            IcmIpcMsgType::KeybindEvent.spec_payload_shape(),
            keybind_event.spec_serialize().len() as int,
        ),
        spec_payload_len_ok(
            IcmIpcMsgType::RegisterClickRegion.spec_payload_shape(),
            register_click_region.spec_serialize().len() as int,
        ),
        spec_payload_len_ok(
            IcmIpcMsgType::UnregisterClickRegion.spec_payload_shape(),
            unregister_click_region.spec_serialize().len() as int,
        ),
        spec_payload_len_ok(
            IcmIpcMsgType::ClickRegionEvent.spec_payload_shape(),
            click_region_event.spec_serialize().len() as int,
        ),
        spec_payload_len_ok(
            IcmIpcMsgType::RegisterGlobalPointerEvent.spec_payload_shape(),
            register_global_pointer_event.spec_serialize().len() as int,
        ),
        spec_payload_len_ok(
            IcmIpcMsgType::RegisterGlobalKeyboardEvent.spec_payload_shape(),
            register_global_keyboard_event.spec_serialize().len() as int,
        ),
        spec_payload_len_ok(
            IcmIpcMsgType::RegisterGlobalCaptureMouse.spec_payload_shape(),
            register_global_capture_mouse.spec_serialize().len() as int,
        ),
        spec_payload_len_ok(
            IcmIpcMsgType::RegisterGlobalCaptureKeyboard.spec_payload_shape(),
            register_global_capture_keyboard.spec_serialize().len() as int,
        ),
        spec_payload_len_ok(
            IcmIpcMsgType::UnregisterGlobalCaptureKeyboard.spec_payload_shape(),
            unregister_global_capture_keyboard.spec_serialize().len() as int,
        ),
        spec_payload_len_ok(
            IcmIpcMsgType::UnregisterGlobalCaptureMouse.spec_payload_shape(),
            unregister_global_capture_mouse.spec_serialize().len() as int,
        ),
{
}

} // verus!
