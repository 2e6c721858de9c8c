//! Drawing primitives sent into a window.

use crate::error::IpcError;
use crate::registry::{spec_payload_len_ok, IcmIpcMsgType};
use crate::utf8::{is_utf8, spec_is_utf8};
use crate::wire::{
    lemma_find_zero_at, lemma_find_zero_none, lemma_i32_le_at, lemma_u32_le_at, read_byte,
    read_i32_le, read_u32_le, spec_find_zero, spec_i32_at, spec_i32_le, spec_u32_at,
    spec_u32_le, write_byte, write_bytes, write_i32_le, write_u32_le,
};
use vstd::prelude::*;

verus! {

/// Fill a rectangle of a window with a colour.
#[derive(Debug, Clone, Copy, PartialEq, Eq, Structural)]
pub struct IcmMsgDrawRect {
    pub window_id: u32,
    pub x: i32,
    pub y: i32,
    pub width: u32,
    pub height: u32,
    pub color_rgba: u32,
}

impl IcmMsgDrawRect {
    /// The payload's wire form: 24 bytes.
    pub open spec fn spec_serialize(self) -> Seq<u8> {
        spec_u32_le(self.window_id) + spec_i32_le(self.x) + spec_i32_le(self.y) + spec_u32_le(self.width) + spec_u32_le(self.height) + spec_u32_le(self.color_rgba)
    }

    /// The decoder's reading of a payload held at offset `o` of `s`.
    pub open spec fn spec_matches(self, s: Seq<u8>, o: int) -> bool {
        &&& self.window_id == spec_u32_at(s, o)
        &&& self.x == spec_i32_at(s, o + 4)
        &&& self.y == spec_i32_at(s, o + 8)
        &&& self.width == spec_u32_at(s, o + 12)
        &&& self.height == spec_u32_at(s, o + 16)
        &&& self.color_rgba == spec_u32_at(s, o + 20)
    }

    /// Encode the payload.
    pub fn serialize(&self) -> (r: Vec<u8>)
        ensures
            r@ == self.spec_serialize(),
            r@.len() == 24,
    {
        let mut buf: Vec<u8> = Vec::new();
        write_u32_le(&mut buf, self.window_id);
        write_i32_le(&mut buf, self.x);
        write_i32_le(&mut buf, self.y);
        write_u32_le(&mut buf, self.width);
        write_u32_le(&mut buf, self.height);
        write_u32_le(&mut buf, self.color_rgba);
        proof {
            assert(buf@ =~= self.spec_serialize());
        }
        buf
    }

    /// Decode a payload from the first 24 bytes of `bytes`.
    pub fn deserialize(bytes: &[u8]) -> (r: Result<(Self, usize), IpcError>)
        ensures
            match r {
                Ok((m, n)) => bytes@.len() >= 24 && n == 24 && m.spec_matches(bytes@, 0),
                Err(e) => bytes@.len() < 24 && e == IpcError::UnexpectedEnd,
            },
    {
        if bytes.len() < 24 {
            return Err(IpcError::UnexpectedEnd);
        }
        let m = Self {
            window_id: read_u32_le(bytes, 0),
            x: read_i32_le(bytes, 4),
            y: read_i32_le(bytes, 8),
            width: read_u32_le(bytes, 12),
            height: read_u32_le(bytes, 16),
            color_rgba: read_u32_le(bytes, 20),
        };
        Ok((m, 24))
    }

    /// Round trip at an offset: if the bytes at `o` are `m`'s encoding,
    /// a value that matches the decoder's reading there agrees with `m`.
    pub proof fn lemma_roundtrip_at(m: Self, m2: Self, s: Seq<u8>, o: int)
        requires
            0 <= o,
            o + 24 <= s.len(),
            s.subrange(o, o + 24) == m.spec_serialize(),
            m2.spec_matches(s, o),
        ensures
            m2 == m,
    {
        let ser = m.spec_serialize();
        let sub = s.subrange(o, o + 24);
        assert(ser.len() == 24);
        assert(s[o] == sub[0] && sub[0] == ser[0]);
        assert(s[o + 1] == sub[1] && sub[1] == ser[1]);
        assert(s[o + 2] == sub[2] && sub[2] == ser[2]);
        assert(s[o + 3] == sub[3] && sub[3] == ser[3]);
        lemma_u32_le_at(s, o, m.window_id);
        assert(s[o + 4] == sub[4] && sub[4] == ser[4]);
        assert(s[o + 5] == sub[5] && sub[5] == ser[5]);
        assert(s[o + 6] == sub[6] && sub[6] == ser[6]);
        assert(s[o + 7] == sub[7] && sub[7] == ser[7]);
        lemma_i32_le_at(s, o + 4, m.x);
        assert(s[o + 8] == sub[8] && sub[8] == ser[8]);
        assert(s[o + 9] == sub[9] && sub[9] == ser[9]);
        assert(s[o + 10] == sub[10] && sub[10] == ser[10]);
        assert(s[o + 11] == sub[11] && sub[11] == ser[11]);
        lemma_i32_le_at(s, o + 8, m.y);
        assert(s[o + 12] == sub[12] && sub[12] == ser[12]);
        assert(s[o + 13] == sub[13] && sub[13] == ser[13]);
        assert(s[o + 14] == sub[14] && sub[14] == ser[14]);
        assert(s[o + 15] == sub[15] && sub[15] == ser[15]);
        lemma_u32_le_at(s, o + 12, m.width);
        assert(s[o + 16] == sub[16] && sub[16] == ser[16]);
        assert(s[o + 17] == sub[17] && sub[17] == ser[17]);
        assert(s[o + 18] == sub[18] && sub[18] == ser[18]);
        assert(s[o + 19] == sub[19] && sub[19] == ser[19]);
        lemma_u32_le_at(s, o + 16, m.height);
        assert(s[o + 20] == sub[20] && sub[20] == ser[20]);
        assert(s[o + 21] == sub[21] && sub[21] == ser[21]);
        assert(s[o + 22] == sub[22] && sub[22] == ser[22]);
        assert(s[o + 23] == sub[23] && sub[23] == ser[23]);
        lemma_u32_le_at(s, o + 20, m.color_rgba);
    }

    /// Round trip: a value that matches the decoder's reading of `m`'s
    /// own encoding is `m` itself.
    pub proof fn lemma_roundtrip(m: Self, m2: Self)
        requires
            m2.spec_matches(m.spec_serialize(), 0),
        ensures
            m2 == m,
    {
        assert(m.spec_serialize().subrange(0, 24) =~= m.spec_serialize());
        Self::lemma_roundtrip_at(m, m2, m.spec_serialize(), 0);
    }
}

/// Draw a previously uploaded image into a window.
#[derive(Debug, Clone, Copy, PartialEq, Eq, Structural)]
pub struct IcmMsgDrawUploadedImage {
    pub window_id: u32,
    pub image_id: u32,
    pub x: i32,
    pub y: i32,
    pub width: u32,
    pub height: u32,
    pub src_x: u32,
    pub src_y: u32,
    pub src_width: u32,
    pub src_height: u32,
    pub alpha: u8,
}

impl IcmMsgDrawUploadedImage {
    /// The payload's wire form: 41 bytes.
    pub open spec fn spec_serialize(self) -> Seq<u8> {
        spec_u32_le(self.window_id) + spec_u32_le(self.image_id) + spec_i32_le(self.x) + spec_i32_le(self.y) + spec_u32_le(self.width) + spec_u32_le(self.height) + spec_u32_le(self.src_x) + spec_u32_le(self.src_y) + spec_u32_le(self.src_width) + spec_u32_le(self.src_height) + seq![self.alpha]
    }

    /// The decoder's reading of a payload held at offset `o` of `s`.
    pub open spec fn spec_matches(self, s: Seq<u8>, o: int) -> bool {
        &&& self.window_id == spec_u32_at(s, o)
        &&& self.image_id == spec_u32_at(s, o + 4)
        &&& self.x == spec_i32_at(s, o + 8)
        &&& self.y == spec_i32_at(s, o + 12)
        &&& self.width == spec_u32_at(s, o + 16)
        &&& self.height == spec_u32_at(s, o + 20)
        &&& self.src_x == spec_u32_at(s, o + 24)
        &&& self.src_y == spec_u32_at(s, o + 28)
        &&& self.src_width == spec_u32_at(s, o + 32)
        &&& self.src_height == spec_u32_at(s, o + 36)
        &&& self.alpha == s[o + 40]
    }

    /// Encode the payload.
    pub fn serialize(&self) -> (r: Vec<u8>)
        ensures
            r@ == self.spec_serialize(),
            r@.len() == 41,
    {
        let mut buf: Vec<u8> = Vec::new();
        write_u32_le(&mut buf, self.window_id);
        write_u32_le(&mut buf, self.image_id);
        write_i32_le(&mut buf, self.x);
        write_i32_le(&mut buf, self.y);
        write_u32_le(&mut buf, self.width);
        write_u32_le(&mut buf, self.height);
        write_u32_le(&mut buf, self.src_x);
        write_u32_le(&mut buf, self.src_y);
        write_u32_le(&mut buf, self.src_width);
        write_u32_le(&mut buf, self.src_height);
        write_byte(&mut buf, self.alpha);
        proof {
            assert(buf@ =~= self.spec_serialize());
        }
        buf
    }

    /// Decode a payload from the first 41 bytes of `bytes`.
    pub fn deserialize(bytes: &[u8]) -> (r: Result<(Self, usize), IpcError>)
        ensures
            match r {
                Ok((m, n)) => bytes@.len() >= 41 && n == 41 && m.spec_matches(bytes@, 0),
                Err(e) => bytes@.len() < 41 && e == IpcError::UnexpectedEnd,
            },
    {
        if bytes.len() < 41 {
            return Err(IpcError::UnexpectedEnd);
        }
        let m = Self {
            window_id: read_u32_le(bytes, 0),
            image_id: read_u32_le(bytes, 4),
            x: read_i32_le(bytes, 8),
            y: read_i32_le(bytes, 12),
            width: read_u32_le(bytes, 16),
            height: read_u32_le(bytes, 20),
            src_x: read_u32_le(bytes, 24),
            src_y: read_u32_le(bytes, 28),
            src_width: read_u32_le(bytes, 32),
            src_height: read_u32_le(bytes, 36),
            alpha: read_byte(bytes, 40),
        };
        Ok((m, 41))
    }

    /// Round trip at an offset: if the bytes at `o` are `m`'s encoding,
    /// a value that matches the decoder's reading there agrees with `m`.
    #[verifier::rlimit(50)]
    pub proof fn lemma_roundtrip_at(m: Self, m2: Self, s: Seq<u8>, o: int)
        requires
            0 <= o,
            o + 41 <= s.len(),
            s.subrange(o, o + 41) == m.spec_serialize(),
            m2.spec_matches(s, o),
        ensures
            m2 == m,
    {
        let ser = m.spec_serialize();
        let sub = s.subrange(o, o + 41);
        assert(ser.len() == 41);
        assert(s[o] == sub[0] && sub[0] == ser[0]);
        assert(s[o + 1] == sub[1] && sub[1] == ser[1]);
        assert(s[o + 2] == sub[2] && sub[2] == ser[2]);
        assert(s[o + 3] == sub[3] && sub[3] == ser[3]);
        lemma_u32_le_at(s, o, m.window_id);
        assert(s[o + 4] == sub[4] && sub[4] == ser[4]);
        assert(s[o + 5] == sub[5] && sub[5] == ser[5]);
        assert(s[o + 6] == sub[6] && sub[6] == ser[6]);
        assert(s[o + 7] == sub[7] && sub[7] == ser[7]);
        lemma_u32_le_at(s, o + 4, m.image_id);
        assert(s[o + 8] == sub[8] && sub[8] == ser[8]);
        assert(s[o + 9] == sub[9] && sub[9] == ser[9]);
        assert(s[o + 10] == sub[10] && sub[10] == ser[10]);
        assert(s[o + 11] == sub[11] && sub[11] == ser[11]);
        lemma_i32_le_at(s, o + 8, m.x);
        assert(s[o + 12] == sub[12] && sub[12] == ser[12]);
        assert(s[o + 13] == sub[13] && sub[13] == ser[13]);
        assert(s[o + 14] == sub[14] && sub[14] == ser[14]);
        assert(s[o + 15] == sub[15] && sub[15] == ser[15]);
        lemma_i32_le_at(s, o + 12, m.y);
        assert(s[o + 16] == sub[16] && sub[16] == ser[16]);
        assert(s[o + 17] == sub[17] && sub[17] == ser[17]);
        assert(s[o + 18] == sub[18] && sub[18] == ser[18]);
        assert(s[o + 19] == sub[19] && sub[19] == ser[19]);
        lemma_u32_le_at(s, o + 16, m.width);
        assert(s[o + 20] == sub[20] && sub[20] == ser[20]);
        assert(s[o + 21] == sub[21] && sub[21] == ser[21]);
        assert(s[o + 22] == sub[22] && sub[22] == ser[22]);
        assert(s[o + 23] == sub[23] && sub[23] == ser[23]);
        lemma_u32_le_at(s, o + 20, m.height);
        assert(s[o + 24] == sub[24] && sub[24] == ser[24]);
        assert(s[o + 25] == sub[25] && sub[25] == ser[25]);
        assert(s[o + 26] == sub[26] && sub[26] == ser[26]);
        assert(s[o + 27] == sub[27] && sub[27] == ser[27]);
        lemma_u32_le_at(s, o + 24, m.src_x);
        assert(s[o + 28] == sub[28] && sub[28] == ser[28]);
        assert(s[o + 29] == sub[29] && sub[29] == ser[29]);
        assert(s[o + 30] == sub[30] && sub[30] == ser[30]);
        assert(s[o + 31] == sub[31] && sub[31] == ser[31]);
        lemma_u32_le_at(s, o + 28, m.src_y);
        assert(s[o + 32] == sub[32] && sub[32] == ser[32]);
        assert(s[o + 33] == sub[33] && sub[33] == ser[33]);
        assert(s[o + 34] == sub[34] && sub[34] == ser[34]);
        assert(s[o + 35] == sub[35] && sub[35] == ser[35]);
        lemma_u32_le_at(s, o + 32, m.src_width);
        assert(s[o + 36] == sub[36] && sub[36] == ser[36]);
        assert(s[o + 37] == sub[37] && sub[37] == ser[37]);
        assert(s[o + 38] == sub[38] && sub[38] == ser[38]);
        assert(s[o + 39] == sub[39] && sub[39] == ser[39]);
        lemma_u32_le_at(s, o + 36, m.src_height);
        assert(s[o + 40] == sub[40] && sub[40] == ser[40]);
        assert(s[o + 40] == m.alpha);
    }

    /// Round trip: a value that matches the decoder's reading of `m`'s
    /// own encoding is `m` itself.
    #[verifier::rlimit(50)]
    pub proof fn lemma_roundtrip(m: Self, m2: Self)
        requires
            m2.spec_matches(m.spec_serialize(), 0),
        ensures
            m2 == m,
    {
        assert(m.spec_serialize().subrange(0, 41) =~= m.spec_serialize());
        Self::lemma_roundtrip_at(m, m2, m.spec_serialize(), 0);
    }
}

/// Draw a null-terminated UTF-8 string into a window.
#[derive(Debug, Clone, PartialEq, Eq)]
pub struct IcmMsgDrawText {
    pub window_id: u32,
    pub x: i32,
    pub y: i32,
    pub color_rgba: u32,
    pub font_size: u32,
    pub text: Vec<u8>,
}

impl IcmMsgDrawText {
    /// The payload's wire form: 20 fixed bytes, the string's bytes, then
    /// a single terminating zero byte.
    pub open spec fn spec_serialize(self) -> Seq<u8> {
        spec_u32_le(self.window_id) + spec_i32_le(self.x) + spec_i32_le(self.y) + spec_u32_le(self.color_rgba) + spec_u32_le(self.font_size) + self.text@ + seq![0u8]
    }

    /// The decoder's reading of a payload in `s`: fixed fields at their
    /// offsets, then every byte before the first terminator.
    pub open spec fn spec_matches(self, s: Seq<u8>) -> bool {
        &&& self.window_id == spec_u32_at(s, 0)
        &&& self.x == spec_i32_at(s, 4)
        &&& self.y == spec_i32_at(s, 8)
        &&& self.color_rgba == spec_u32_at(s, 12)
        &&& self.font_size == spec_u32_at(s, 16)
        &&& spec_find_zero(s, 20) is Some
        &&& self.text@ == s.subrange(20, spec_find_zero(s, 20).unwrap())
    }

    /// Encode the payload.
    pub fn serialize(&self) -> (r: Vec<u8>)
        ensures
            r@ == self.spec_serialize(),
            r@.len() == 20 + 1 + self.text@.len(),
    {
        let mut buf: Vec<u8> = Vec::new();
        write_u32_le(&mut buf, self.window_id);
        write_i32_le(&mut buf, self.x);
        write_i32_le(&mut buf, self.y);
        write_u32_le(&mut buf, self.color_rgba);
        write_u32_le(&mut buf, self.font_size);
        write_bytes(&mut buf, self.text.as_slice());
        write_byte(&mut buf, 0);
        proof {
            assert(buf@ =~= self.spec_serialize());
        }
        buf
    }

    /// Decode a payload from `bytes`: the fixed fields, then bytes up to
    /// the first zero, which must form valid UTF-8.
    pub fn deserialize(bytes: &[u8]) -> (r: Result<(Self, usize), IpcError>)
        ensures
            match r {
                Ok((m, n)) => {
                    &&& bytes@.len() >= 20 + 1
                    &&& m.spec_matches(bytes@)
                    &&& spec_is_utf8(m.text@)
                    &&& n == spec_find_zero(bytes@, 20).unwrap() + 1
                },
                Err(e) => {
                    ||| (bytes@.len() < 20 && e == IpcError::UnexpectedEnd)
                    ||| (bytes@.len() >= 20 && spec_find_zero(bytes@, 20) is None
                        && e == IpcError::UnexpectedEnd)
                    ||| (spec_find_zero(bytes@, 20) is Some && !spec_is_utf8(
                        bytes@.subrange(20, spec_find_zero(bytes@, 20).unwrap()),
                    ) && e == IpcError::InvalidUtf8)
                },
            },
    {
        if bytes.len() < 20 {
            return Err(IpcError::UnexpectedEnd);
        }
        let total = bytes.len();
        let mut text: Vec<u8> = Vec::new();
        let mut i: usize = 20;
        while i < total && bytes[i] != 0
            invariant
                20 <= i <= total,
                total == bytes@.len(),
                forall|j: int| 20 <= j < i ==> bytes@[j] != 0,
                text@ == bytes@.subrange(20, i as int),
            decreases total - i,
        {
            text.push(bytes[i]);
            proof {
                assert(text@ =~= bytes@.subrange(20, i + 1));
            }
            i = i + 1;
        }
        if i == total {
            proof {
                lemma_find_zero_none(bytes@, 20);
            }
            return Err(IpcError::UnexpectedEnd);
        }
        proof {
            lemma_find_zero_at(bytes@, 20, i as int);
        }
        if !is_utf8(text.as_slice()) {
            return Err(IpcError::InvalidUtf8);
        }
        let m = Self {
            window_id: read_u32_le(bytes, 0),
            x: read_i32_le(bytes, 4),
            y: read_i32_le(bytes, 8),
            color_rgba: read_u32_le(bytes, 12),
            font_size: read_u32_le(bytes, 16),
            text,
        };
        Ok((m, i + 1))
    }

    /// Round trip: a value that matches the decoder's reading of `m`'s own
    /// encoding agrees with `m`, provided the string holds no zero byte.
    pub proof fn lemma_roundtrip(m: Self, m2: Self)
        requires
            forall|j: int| 0 <= j < m.text@.len() ==> m.text@[j] != 0,
            m2.spec_matches(m.spec_serialize()),
        ensures
            m2.window_id == m.window_id,
            m2.x == m.x,
            m2.y == m.y,
            m2.color_rgba == m.color_rgba,
            m2.font_size == m.font_size,
            m2.text@ == m.text@,
    {
        let s = m.spec_serialize();
        let p0 = spec_u32_le(m.window_id);
        let p1 = spec_i32_le(m.x);
        let p2 = spec_i32_le(m.y);
        let p3 = spec_u32_le(m.color_rgba);
        let p4 = spec_u32_le(m.font_size);
        assert(s == p0 + p1 + p2 + p3 + p4 + m.text@ + seq![0u8]);
        let tl = m.text@.len() as int;
        assert(s.len() == 20 + tl + 1);
        assert(s[20 + tl] == 0);
        assert forall|j: int| 0 <= j < tl implies s[20 + j] == m.text@[j] by {
            assert((p0 + p1 + p2 + p3 + p4 + m.text@ + seq![0u8])[20 + j] == m.text@[j]);
        }
        assert forall|j: int| 20 <= j < 20 + tl implies s[j] != 0 by {
            assert(s[20 + (j - 20)] == m.text@[j - 20]);
        }
        lemma_find_zero_at(s, 20, 20 + tl);
        assert(s.subrange(20, 20 + tl) =~= m.text@);
        assert(s[0] == p0[0]);
        assert(s[1] == p0[1]);
        assert(s[2] == p0[2]);
        assert(s[3] == p0[3]);
        lemma_u32_le_at(s, 0, m.window_id);
        assert(s[4] == p1[0]);
        assert(s[5] == p1[1]);
        assert(s[6] == p1[2]);
        assert(s[7] == p1[3]);
        lemma_i32_le_at(s, 4, m.x);
        assert(s[8] == p2[0]);
        assert(s[9] == p2[1]);
        assert(s[10] == p2[2]);
        assert(s[11] == p2[3]);
        lemma_i32_le_at(s, 8, m.y);
        assert(s[12] == p3[0]);
        assert(s[13] == p3[1]);
        assert(s[14] == p3[2]);
        assert(s[15] == p3[3]);
        lemma_u32_le_at(s, 12, m.color_rgba);
        assert(s[16] == p4[0]);
        assert(s[17] == p4[1]);
        assert(s[18] == p4[2]);
        assert(s[19] == p4[3]);
        lemma_u32_le_at(s, 16, m.font_size);
    }
}

/// The registry's size table agrees with these codecs: every encoded
/// payload satisfies the length rule registered for its message type.
pub proof fn lemma_sizes_match_registry(
    draw_rect: IcmMsgDrawRect,
    draw_uploaded_image: IcmMsgDrawUploadedImage,
    draw_text: IcmMsgDrawText,
)
    ensures
        spec_payload_len_ok(
            IcmIpcMsgType::DrawRect.spec_payload_shape(),
            draw_rect.spec_serialize().len() as int,
        ),
        spec_payload_len_ok(
            IcmIpcMsgType::DrawUploadedImage.spec_payload_shape(),
            draw_uploaded_image.spec_serialize().len() as int,
        ),
        spec_payload_len_ok(
            IcmIpcMsgType::DrawText.spec_payload_shape(),
            draw_text.spec_serialize().len() as int,
        ),
{
}

} // verus!
