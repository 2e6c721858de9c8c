//! Shader-effect messages with fixed-width equation text.

use crate::error::IpcError;
use crate::registry::{spec_payload_len_ok, IcmIpcMsgType};
use crate::wire::{
    lemma_u32_le_at, lemma_zero_pad_roundtrip, lemma_zero_pad_truncates, read_byte,
    read_u32_le, read_zero_padded, spec_bool_le, spec_strip_zeros, spec_u32_at, spec_u32_le,
    spec_zero_pad, write_bool, write_u32_le, write_zero_padded,
};
use vstd::prelude::*;

verus! {

/// Apply a shader equation to the whole screen; the equation text occupies a fixed 256-byte zero-padded field.
#[derive(Debug, Clone, PartialEq, Eq)]
pub struct IcmMsgSetScreenEffect {
    pub equation: Vec<u8>,
    pub enabled: bool,
}

impl IcmMsgSetScreenEffect {
    /// The payload's wire form: 257 bytes.
    pub open spec fn spec_serialize(self) -> Seq<u8> {
        spec_zero_pad(self.equation@, 256) + spec_bool_le(self.enabled)
    }

    /// The decoder's reading of a payload held at offset `o` of `s`.
    pub open spec fn spec_matches(self, s: Seq<u8>, o: int) -> bool {
        &&& self.equation@ == spec_strip_zeros(s.subrange(o, o + 256))
        &&& self.enabled == (s[o + 256] != 0)
    }

    /// Encode the payload.
    pub fn serialize(&self) -> (r: Vec<u8>)
        ensures
            r@ == self.spec_serialize(),
            r@.len() == 257,
    {
        let mut buf: Vec<u8> = Vec::new();
        write_zero_padded(&mut buf, self.equation.as_slice(), 256);
        write_bool(&mut buf, self.enabled);
        proof {
            assert(buf@ =~= self.spec_serialize());
        }
        buf
    }

    /// Decode a payload from the first 257 bytes of `bytes`.
    pub fn deserialize(bytes: &[u8]) -> (r: Result<(Self, usize), IpcError>)
        ensures
            match r {
                Ok((m, n)) => bytes@.len() >= 257 && n == 257 && m.spec_matches(bytes@, 0),
                Err(e) => bytes@.len() < 257 && e == IpcError::UnexpectedEnd,
            },
    {
        if bytes.len() < 257 {
            return Err(IpcError::UnexpectedEnd);
        }
        let m = Self {
            equation: read_zero_padded(bytes, 0, 256),
            enabled: read_byte(bytes, 256) != 0,
        };
        Ok((m, 257))
    }

    /// Round trip at an offset: if the bytes at `o` are `m`'s encoding,
    /// a value that matches the decoder's reading there agrees with `m`.
    #[verifier::rlimit(50)]
    pub proof fn lemma_roundtrip_at(m: Self, m2: Self, s: Seq<u8>, o: int)
        requires
            0 <= o,
            o + 257 <= s.len(),
            s.subrange(o, o + 257) == m.spec_serialize(),
            m.equation@.len() <= 256,
            m.equation@.len() > 0 ==> m.equation@[m.equation@.len() - 1] != 0,
            m2.spec_matches(s, o),
        ensures
            m2.equation@ == m.equation@,
            m2.enabled == m.enabled,
    {
        let ser = m.spec_serialize();
        let sub = s.subrange(o, o + 257);
        assert(ser.len() == 257);
        assert forall|j: int| 0 <= j < 256 implies s.subrange(o, o + 256)[j]
            == spec_zero_pad(m.equation@, 256)[j] by {
            assert(s[o + j] == sub[0 + j] && sub[0 + j] == ser[0 + j]);
        }
        assert(s.subrange(o, o + 256) =~= spec_zero_pad(m.equation@, 256));
        lemma_zero_pad_roundtrip(m.equation@, 256);
        assert(s[o + 256] == sub[256] && sub[256] == ser[256]);
        assert(s[o + 256] == (if m.enabled { 1u8 } else { 0u8 }));
    }

    /// Round trip: a value that matches the decoder's reading of `m`'s
    /// own encoding is `m` itself.
    #[verifier::rlimit(50)]
    pub proof fn lemma_roundtrip(m: Self, m2: Self)
        requires
            m.equation@.len() <= 256,
            m.equation@.len() > 0 ==> m.equation@[m.equation@.len() - 1] != 0,
            m2.spec_matches(m.spec_serialize(), 0),
        ensures
            m2.equation@ == m.equation@,
            m2.enabled == m.enabled,
    {
        assert(m.spec_serialize().subrange(0, 257) =~= m.spec_serialize());
        Self::lemma_roundtrip_at(m, m2, m.spec_serialize(), 0);
    }
}

/// Apply a shader equation to one window; the equation text occupies a fixed 256-byte zero-padded field.
#[derive(Debug, Clone, PartialEq, Eq)]
pub struct IcmMsgSetWindowEffect {
    pub window_id: u32,
    pub equation: Vec<u8>,
    pub enabled: bool,
}

impl IcmMsgSetWindowEffect {
    /// The payload's wire form: 261 bytes.
    pub open spec fn spec_serialize(self) -> Seq<u8> {
        spec_u32_le(self.window_id) + spec_zero_pad(self.equation@, 256) + spec_bool_le(self.enabled)
    }

    /// The decoder's reading of a payload held at offset `o` of `s`.
    pub open spec fn spec_matches(self, s: Seq<u8>, o: int) -> bool {
        &&& self.window_id == spec_u32_at(s, o)
        &&& self.equation@ == spec_strip_zeros(s.subrange(o + 4, o + 260))
        &&& self.enabled == (s[o + 260] != 0)
    }

    /// Encode the payload.
    pub fn serialize(&self) -> (r: Vec<u8>)
        ensures
            r@ == self.spec_serialize(),
            r@.len() == 261,
    {
        let mut buf: Vec<u8> = Vec::new();
        write_u32_le(&mut buf, self.window_id);
        write_zero_padded(&mut buf, self.equation.as_slice(), 256);
        write_bool(&mut buf, self.enabled);
        proof {
            assert(buf@ =~= self.spec_serialize());
        }
        buf
    }

    /// Decode a payload from the first 261 bytes of `bytes`.
    pub fn deserialize(bytes: &[u8]) -> (r: Result<(Self, usize), IpcError>)
        ensures
            match r {
                Ok((m, n)) => bytes@.len() >= 261 && n == 261 && m.spec_matches(bytes@, 0),
                Err(e) => bytes@.len() < 261 && e == IpcError::UnexpectedEnd,
            },
    {
        if bytes.len() < 261 {
            return Err(IpcError::UnexpectedEnd);
        }
        let m = Self {
            window_id: read_u32_le(bytes, 0),
            equation: read_zero_padded(bytes, 4, 256),
            enabled: read_byte(bytes, 260) != 0,
        };
        Ok((m, 261))
    }

    /// Round trip at an offset: if the bytes at `o` are `m`'s encoding,
    /// a value that matches the decoder's reading there agrees with `m`.
    #[verifier::rlimit(50)]
    pub proof fn lemma_roundtrip_at(m: Self, m2: Self, s: Seq<u8>, o: int)
        requires
            0 <= o,
            o + 261 <= s.len(),
            s.subrange(o, o + 261) == m.spec_serialize(),
            m.equation@.len() <= 256,
            m.equation@.len() > 0 ==> m.equation@[m.equation@.len() - 1] != 0,
            m2.spec_matches(s, o),
        ensures
            m2.window_id == m.window_id,
            m2.equation@ == m.equation@,
            m2.enabled == m.enabled,
    {
        let ser = m.spec_serialize();
        let sub = s.subrange(o, o + 261);
        assert(ser.len() == 261);
        assert(s[o] == sub[0] && sub[0] == ser[0]);
        assert(s[o + 1] == sub[1] && sub[1] == ser[1]);
        assert(s[o + 2] == sub[2] && sub[2] == ser[2]);
        assert(s[o + 3] == sub[3] && sub[3] == ser[3]);
        lemma_u32_le_at(s, o, m.window_id);
        assert forall|j: int| 0 <= j < 256 implies s.subrange(o + 4, o + 260)[j]
            == spec_zero_pad(m.equation@, 256)[j] by {
            assert(s[o + 4 + j] == sub[4 + j] && sub[4 + j] == ser[4 + j]);
        }
        assert(s.subrange(o + 4, o + 260) =~= spec_zero_pad(m.equation@, 256));
        lemma_zero_pad_roundtrip(m.equation@, 256);
        assert(s[o + 260] == sub[260] && sub[260] == ser[260]);
        assert(s[o + 260] == (if m.enabled { 1u8 } else { 0u8 }));
    }

    /// Round trip: a value that matches the decoder's reading of `m`'s
    /// own encoding is `m` itself.
    #[verifier::rlimit(50)]
    pub proof fn lemma_roundtrip(m: Self, m2: Self)
        requires
            m.equation@.len() <= 256,
            m.equation@.len() > 0 ==> m.equation@[m.equation@.len() - 1] != 0,
            m2.spec_matches(m.spec_serialize(), 0),
        ensures
            m2.window_id == m.window_id,
            m2.equation@ == m.equation@,
            m2.enabled == m.enabled,
    {
        assert(m.spec_serialize().subrange(0, 261) =~= m.spec_serialize());
        Self::lemma_roundtrip_at(m, m2, m.spec_serialize(), 0);
    }
}

/// Truncation law of the fixed-width equation field: an input of at least
/// 256 bytes contributes exactly its first 256 bytes to the payload, and a
/// shorter input is kept whole and zero-padded; the payload is 257 bytes
/// either way.
pub proof fn lemma_screen_effect_truncation(m: IcmMsgSetScreenEffect)
    ensures
        m.spec_serialize().len() == 257,
        m.equation@.len() >= 256 ==> m.spec_serialize().subrange(0, 256)
            == m.equation@.subrange(0, 256),
        m.equation@.len() < 256 ==> m.spec_serialize().subrange(0, m.equation@.len() as int)
            == m.equation@,
{
    let s = m.spec_serialize();
    let pad = spec_zero_pad(m.equation@, 256);
    assert(s == pad + spec_bool_le(m.enabled));
    if m.equation@.len() >= 256 {
        lemma_zero_pad_truncates(m.equation@, 256);
        assert(s.subrange(0, 256) =~= pad);
    } else {
        assert forall|j: int| 0 <= j < m.equation@.len() implies s.subrange(
            0,
            m.equation@.len() as int,
        )[j] == m.equation@[j] by {
            assert(s[j] == pad[j]);
        }
        assert(s.subrange(0, m.equation@.len() as int) =~= m.equation@);
    }
}

/// The registry's size table agrees with these codecs: every encoded
/// payload satisfies the length rule registered for its message type.
pub proof fn lemma_sizes_match_registry(
    set_screen_effect: IcmMsgSetScreenEffect,
    set_window_effect: IcmMsgSetWindowEffect,
)
    ensures
        spec_payload_len_ok(
            IcmIpcMsgType::SetScreenEffect.spec_payload_shape(),
            set_screen_effect.spec_serialize().len() as int,
        ),
        spec_payload_len_ok(
            IcmIpcMsgType::SetWindowEffect.spec_payload_shape(),
            set_window_effect.spec_serialize().len() as int,
        ),
{
}

} // verus!
