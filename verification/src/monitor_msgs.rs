//! Monitor enumeration messages.

use crate::error::IpcError;
use crate::registry::{spec_payload_len_ok, IcmIpcMsgType};
use crate::wire::{
    lemma_i32_le_at, lemma_u32_le_at, lemma_zero_pad_roundtrip, read_byte, read_i32_le,
    read_u32_le, read_zero_padded, spec_bool_le, spec_i32_at, spec_i32_le, spec_strip_zeros,
    spec_u32_at, spec_u32_le, spec_zero_pad, write_bool, write_bytes, write_i32_le,
    write_u32_le, write_zero_padded,
};
use vstd::prelude::*;

verus! {

/// One monitor of the enumeration response: geometry, physical size, refresh, scale, and a fixed 32-byte zero-padded name.
#[derive(Debug, Clone, PartialEq, Eq)]
pub struct IcmMonitorInfo {
    pub x: i32,
    pub y: i32,
    pub width: u32,
    pub height: u32,
    pub physical_width: u32,
    pub physical_height: u32,
    pub refresh_rate: u32,
    pub scale: u32,
    pub enabled: bool,
    pub primary: bool,
    pub name: Vec<u8>,
}

impl IcmMonitorInfo {
    /// The payload's wire form: 66 bytes.
    pub open spec fn spec_serialize(self) -> Seq<u8> {
        spec_i32_le(self.x) + spec_i32_le(self.y) + spec_u32_le(self.width) + spec_u32_le(self.height) + spec_u32_le(self.physical_width) + spec_u32_le(self.physical_height) + spec_u32_le(self.refresh_rate) + spec_u32_le(self.scale) + spec_bool_le(self.enabled) + spec_bool_le(self.primary) + spec_zero_pad(self.name@, 32)
    }

    /// The decoder's reading of a payload held at offset `o` of `s`.
    pub open spec fn spec_matches(self, s: Seq<u8>, o: int) -> bool {
        &&& self.x == spec_i32_at(s, o)
        &&& self.y == spec_i32_at(s, o + 4)
        &&& self.width == spec_u32_at(s, o + 8)
        &&& self.height == spec_u32_at(s, o + 12)
        &&& self.physical_width == spec_u32_at(s, o + 16)
        &&& self.physical_height == spec_u32_at(s, o + 20)
        &&& self.refresh_rate == spec_u32_at(s, o + 24)
        &&& self.scale == spec_u32_at(s, o + 28)
        &&& self.enabled == (s[o + 32] != 0)
        &&& self.primary == (s[o + 33] != 0)
        &&& self.name@ == spec_strip_zeros(s.subrange(o + 34, o + 66))
    }

    /// Encode the payload.
    pub fn serialize(&self) -> (r: Vec<u8>)
        ensures
            r@ == self.spec_serialize(),
            r@.len() == 66,
    {
        let mut buf: Vec<u8> = Vec::new();
        write_i32_le(&mut buf, self.x);
        write_i32_le(&mut buf, self.y);
        write_u32_le(&mut buf, self.width);
        write_u32_le(&mut buf, self.height);
        write_u32_le(&mut buf, self.physical_width);
        write_u32_le(&mut buf, self.physical_height);
        write_u32_le(&mut buf, self.refresh_rate);
        write_u32_le(&mut buf, self.scale);
        write_bool(&mut buf, self.enabled);
        write_bool(&mut buf, self.primary);
        write_zero_padded(&mut buf, self.name.as_slice(), 32);
        proof {
            assert(buf@ =~= self.spec_serialize());
        }
        buf
    }

    /// Decode a payload from the first 66 bytes of `bytes`.
    pub fn deserialize(bytes: &[u8]) -> (r: Result<(Self, usize), IpcError>)
        ensures
            match r {
                Ok((m, n)) => bytes@.len() >= 66 && n == 66 && m.spec_matches(bytes@, 0),
                Err(e) => bytes@.len() < 66 && e == IpcError::UnexpectedEnd,
            },
    {
        if bytes.len() < 66 {
            return Err(IpcError::UnexpectedEnd);
        }
        let m = Self {
            x: read_i32_le(bytes, 0),
            y: read_i32_le(bytes, 4),
            width: read_u32_le(bytes, 8),
            height: read_u32_le(bytes, 12),
            physical_width: read_u32_le(bytes, 16),
            physical_height: read_u32_le(bytes, 20),
            refresh_rate: read_u32_le(bytes, 24),
            scale: read_u32_le(bytes, 28),
            enabled: read_byte(bytes, 32) != 0,
            primary: read_byte(bytes, 33) != 0,
            name: read_zero_padded(bytes, 34, 32),
        };
        Ok((m, 66))
    }

    /// Round trip at an offset: if the bytes at `o` are `m`'s encoding,
    /// a value that matches the decoder's reading there agrees with `m`.
    #[verifier::rlimit(50)]
    pub proof fn lemma_roundtrip_at(m: Self, m2: Self, s: Seq<u8>, o: int)
        requires
            0 <= o,
            o + 66 <= s.len(),
            s.subrange(o, o + 66) == m.spec_serialize(),
            m.name@.len() <= 32,
            m.name@.len() > 0 ==> m.name@[m.name@.len() - 1] != 0,
            m2.spec_matches(s, o),
        ensures
            m2.x == m.x,
            m2.y == m.y,
            m2.width == m.width,
            m2.height == m.height,
            m2.physical_width == m.physical_width,
            m2.physical_height == m.physical_height,
            m2.refresh_rate == m.refresh_rate,
            m2.scale == m.scale,
            m2.enabled == m.enabled,
            m2.primary == m.primary,
            m2.name@ == m.name@,
    {
        let ser = m.spec_serialize();
        let sub = s.subrange(o, o + 66);
        assert(ser.len() == 66);
        assert(s[o] == sub[0] && sub[0] == ser[0]);
        assert(s[o + 1] == sub[1] && sub[1] == ser[1]);
        assert(s[o + 2] == sub[2] && sub[2] == ser[2]);
        assert(s[o + 3] == sub[3] && sub[3] == ser[3]);
        lemma_i32_le_at(s, o, m.x);
        assert(s[o + 4] == sub[4] && sub[4] == ser[4]);
        assert(s[o + 5] == sub[5] && sub[5] == ser[5]);
        assert(s[o + 6] == sub[6] && sub[6] == ser[6]);
        assert(s[o + 7] == sub[7] && sub[7] == ser[7]);
        lemma_i32_le_at(s, o + 4, m.y);
        assert(s[o + 8] == sub[8] && sub[8] == ser[8]);
        assert(s[o + 9] == sub[9] && sub[9] == ser[9]);
        assert(s[o + 10] == sub[10] && sub[10] == ser[10]);
        assert(s[o + 11] == sub[11] && sub[11] == ser[11]);
        lemma_u32_le_at(s, o + 8, m.width);
        assert(s[o + 12] == sub[12] && sub[12] == ser[12]);
        assert(s[o + 13] == sub[13] && sub[13] == ser[13]);
        assert(s[o + 14] == sub[14] && sub[14] == ser[14]);
        assert(s[o + 15] == sub[15] && sub[15] == ser[15]);
        lemma_u32_le_at(s, o + 12, m.height);
        assert(s[o + 16] == sub[16] && sub[16] == ser[16]);
        assert(s[o + 17] == sub[17] && sub[17] == ser[17]);
        assert(s[o + 18] == sub[18] && sub[18] == ser[18]);
        assert(s[o + 19] == sub[19] && sub[19] == ser[19]);
        lemma_u32_le_at(s, o + 16, m.physical_width);
        assert(s[o + 20] == sub[20] && sub[20] == ser[20]);
        assert(s[o + 21] == sub[21] && sub[21] == ser[21]);
        assert(s[o + 22] == sub[22] && sub[22] == ser[22]);
        assert(s[o + 23] == sub[23] && sub[23] == ser[23]);
        lemma_u32_le_at(s, o + 20, m.physical_height);
        assert(s[o + 24] == sub[24] && sub[24] == ser[24]);
        assert(s[o + 25] == sub[25] && sub[25] == ser[25]);
        assert(s[o + 26] == sub[26] && sub[26] == ser[26]);
        assert(s[o + 27] == sub[27] && sub[27] == ser[27]);
        lemma_u32_le_at(s, o + 24, m.refresh_rate);
        assert(s[o + 28] == sub[28] && sub[28] == ser[28]);
        assert(s[o + 29] == sub[29] && sub[29] == ser[29]);
        assert(s[o + 30] == sub[30] && sub[30] == ser[30]);
        assert(s[o + 31] == sub[31] && sub[31] == ser[31]);
        lemma_u32_le_at(s, o + 28, m.scale);
        assert(s[o + 32] == sub[32] && sub[32] == ser[32]);
        assert(s[o + 32] == (if m.enabled { 1u8 } else { 0u8 }));
        assert(s[o + 33] == sub[33] && sub[33] == ser[33]);
        assert(s[o + 33] == (if m.primary { 1u8 } else { 0u8 }));
        assert forall|j: int| 0 <= j < 32 implies s.subrange(o + 34, o + 66)[j]
            == spec_zero_pad(m.name@, 32)[j] by {
            assert(s[o + 34 + j] == sub[34 + j] && sub[34 + j] == ser[34 + j]);
        }
        assert(s.subrange(o + 34, o + 66) =~= spec_zero_pad(m.name@, 32));
        lemma_zero_pad_roundtrip(m.name@, 32);
    }

    /// Round trip: a value that matches the decoder's reading of `m`'s
    /// own encoding is `m` itself.
    #[verifier::rlimit(50)]
    pub proof fn lemma_roundtrip(m: Self, m2: Self)
        requires
            m.name@.len() <= 32,
            m.name@.len() > 0 ==> m.name@[m.name@.len() - 1] != 0,
            m2.spec_matches(m.spec_serialize(), 0),
        ensures
            m2.x == m.x,
            m2.y == m.y,
            m2.width == m.width,
            m2.height == m.height,
            m2.physical_width == m.physical_width,
            m2.physical_height == m.physical_height,
            m2.refresh_rate == m.refresh_rate,
            m2.scale == m.scale,
            m2.enabled == m.enabled,
            m2.primary == m.primary,
            m2.name@ == m.name@,
    {
        assert(m.spec_serialize().subrange(0, 66) =~= m.spec_serialize());
        Self::lemma_roundtrip_at(m, m2, m.spec_serialize(), 0);
    }
}

/// Ask for the monitor list.  Carries no payload.
#[derive(Debug, Clone, Copy, PartialEq, Eq, Structural)]
pub struct IcmMsgQueryMonitors;

impl IcmMsgQueryMonitors {
    /// The payload's wire form: empty.
    pub open spec fn spec_serialize(self) -> Seq<u8> {
        Seq::empty()
    }

    /// Encode the payload: no bytes.
    pub fn serialize(&self) -> (r: Vec<u8>)
        ensures
            r@ == self.spec_serialize(),
            r@.len() == 0,
    {
        Vec::new()
    }

    /// Decode the payload: consumes no bytes and cannot fail.
    pub fn deserialize(_bytes: &[u8]) -> (r: Result<(Self, usize), IpcError>)
        ensures
            r == Ok::<(IcmMsgQueryMonitors, usize), IpcError>((IcmMsgQueryMonitors, 0)),
    {
        Ok((IcmMsgQueryMonitors, 0))
    }
}

/// The two monitors of a value are equal field for field.
pub open spec fn spec_monitor_eq(a: IcmMonitorInfo, b: IcmMonitorInfo) -> bool {
    &&& a.x == b.x
    &&& a.y == b.y
    &&& a.width == b.width
    &&& a.height == b.height
    &&& a.physical_width == b.physical_width
    &&& a.physical_height == b.physical_height
    &&& a.refresh_rate == b.refresh_rate
    &&& a.scale == b.scale
    &&& a.enabled == b.enabled
    &&& a.primary == b.primary
    &&& a.name@ == b.name@
}

/// Each monitor of `s` encoded with its fixed 66-byte record rule, back to
/// back.
pub open spec fn spec_monitors_le(s: Seq<IcmMonitorInfo>) -> Seq<u8>
    decreases s.len(),
{
    if s.len() == 0 {
        Seq::empty()
    } else {
        s[0].spec_serialize() + spec_monitors_le(s.drop_first())
    }
}

/// A monitor record is 66 bytes whatever its name holds.
pub proof fn lemma_monitor_serialize_len(m: IcmMonitorInfo)
    ensures
        m.spec_serialize().len() == 66,
{
}

/// A run of `k` monitor records occupies `66 * k` bytes.
pub proof fn lemma_monitors_le_len(s: Seq<IcmMonitorInfo>)
    ensures
        spec_monitors_le(s).len() == 66 * s.len(),
    decreases s.len(),
{
    if s.len() > 0 {
        lemma_monitor_serialize_len(s[0]);
        lemma_monitors_le_len(s.drop_first());
    }
}

/// Appending one monitor to the run appends its 66 bytes.
pub proof fn lemma_monitors_le_push(s: Seq<IcmMonitorInfo>, x: IcmMonitorInfo)
    ensures
        spec_monitors_le(s.push(x)) == spec_monitors_le(s) + x.spec_serialize(),
    decreases s.len(),
{
    if s.len() == 0 {
        assert(s.push(x)[0] == x);
        assert(s.push(x).drop_first() =~= Seq::<IcmMonitorInfo>::empty());
        assert(spec_monitors_le(Seq::<IcmMonitorInfo>::empty()) == Seq::<u8>::empty());
        assert(spec_monitors_le(s) == Seq::<u8>::empty());
        assert(spec_monitors_le(s.push(x)) =~= spec_monitors_le(s) + x.spec_serialize());
    } else {
        assert(s.push(x)[0] == s[0]);
        assert(s.push(x).drop_first() =~= s.drop_first().push(x));
        lemma_monitors_le_push(s.drop_first(), x);
        assert(spec_monitors_le(s.push(x)) =~= spec_monitors_le(s) + x.spec_serialize());
    }
}

/// The bytes of record `k` in a monitor run are that monitor's encoding.
pub proof fn lemma_monitors_le_chunk(s: Seq<IcmMonitorInfo>, k: int)
    requires
        0 <= k < s.len(),
    ensures
        spec_monitors_le(s).len() == 66 * s.len(),
        spec_monitors_le(s).subrange(66 * k, 66 * k + 66) == s[k].spec_serialize(),
    decreases k,
{
    lemma_monitors_le_len(s);
    lemma_monitor_serialize_len(s[0]);
    if k == 0 {
        assert(spec_monitors_le(s).subrange(0, 66) =~= s[0].spec_serialize());
    } else {
        lemma_monitors_le_chunk(s.drop_first(), k - 1);
        assert(s.drop_first()[k - 1] == s[k]);
        assert forall|j: int| 0 <= j < 66 implies spec_monitors_le(s).subrange(
            66 * k,
            66 * k + 66,
        )[j] == s[k].spec_serialize()[j] by {
            assert(spec_monitors_le(s)[66 * k + j] == spec_monitors_le(s.drop_first())[66 * (k
                - 1) + j]);
            assert(spec_monitors_le(s.drop_first())[66 * (k - 1) + j] == spec_monitors_le(
                s.drop_first(),
            ).subrange(66 * (k - 1), 66 * (k - 1) + 66)[j]);
        }
        assert(spec_monitors_le(s).subrange(66 * k, 66 * k + 66) =~= s[k].spec_serialize());
    }
}

/// The monitor enumeration response: a `u32` monitor count, then that many
/// fixed 66-byte monitor records.
#[derive(Debug, Clone, PartialEq, Eq)]
pub struct IcmMsgMonitorsData {
    pub monitors: Vec<IcmMonitorInfo>,
}

impl IcmMsgMonitorsData {
    /// The payload's wire form: `4 + 66 * count` bytes.
    pub open spec fn spec_serialize(self) -> Seq<u8> {
        spec_u32_le(self.monitors@.len() as u32) + spec_monitors_le(self.monitors@)
    }

    /// The decoder's reading of a payload in `s`: as many monitor records as
    /// the count declares, each read from its own 66-byte chunk.
    pub open spec fn spec_matches(self, s: Seq<u8>) -> bool {
        &&& self.monitors@.len() == spec_u32_at(s, 0)
        &&& forall|k: int|
            0 <= k < self.monitors@.len() ==> self.monitors@[k].spec_matches(s, 4 + 66 * k)
    }

    /// Encode the payload.
    pub fn serialize(&self) -> (r: Vec<u8>)
        requires
            self.monitors@.len() <= u32::MAX,
        ensures
            r@ == self.spec_serialize(),
            r@.len() == 4 + 66 * self.monitors@.len(),
    {
        let mut buf: Vec<u8> = Vec::new();
        write_u32_le(&mut buf, self.monitors.len() as u32);
        let count = self.monitors.len();
        let mut i: usize = 0;
        while i < count
            invariant
                i <= count,
                count == self.monitors@.len(),
                buf@ == spec_u32_le(self.monitors@.len() as u32) + spec_monitors_le(
                    self.monitors@.subrange(0, i as int),
                ),
            decreases count - i,
        {
            let enc = self.monitors[i].serialize();
            write_bytes(&mut buf, enc.as_slice());
            proof {
                assert(self.monitors@.subrange(0, i + 1) =~= self.monitors@.subrange(
                    0,
                    i as int,
                ).push(self.monitors@[i as int]));
                lemma_monitors_le_push(
                    self.monitors@.subrange(0, i as int),
                    self.monitors@[i as int],
                );
                assert(buf@ =~= spec_u32_le(self.monitors@.len() as u32) + spec_monitors_le(
                    self.monitors@.subrange(0, i + 1),
                ));
            }
            i = i + 1;
        }
        proof {
            assert(self.monitors@.subrange(0, count as int) =~= self.monitors@);
            lemma_monitors_le_len(self.monitors@);
        }
        buf
    }

    /// Decode a payload from `bytes`: the count, then exactly that many
    /// monitor records, failing if fewer bytes are available.
    pub fn deserialize(bytes: &[u8]) -> (r: Result<(Self, usize), IpcError>)
        ensures
            match r {
                Ok((m, n)) => {
                    &&& bytes@.len() >= 4 + 66 * spec_u32_at(bytes@, 0)
                    &&& m.spec_matches(bytes@)
                    &&& n == 4 + 66 * spec_u32_at(bytes@, 0)
                },
                Err(e) => {
                    &&& e == IpcError::UnexpectedEnd
                    &&& (bytes@.len() < 4 || bytes@.len() < 4 + 66 * spec_u32_at(bytes@, 0))
                },
            },
    {
        if bytes.len() < 4 {
            return Err(IpcError::UnexpectedEnd);
        }
        let count = read_u32_le(bytes, 0) as usize;
        let total = bytes.len();
        let mut monitors: Vec<IcmMonitorInfo> = Vec::new();
        let mut off: usize = 4;
        let mut i: usize = 0;
        while i < count
            invariant
                i <= count,
                total == bytes@.len(),
                count == spec_u32_at(bytes@, 0),
                off == 4 + 66 * i,
                off <= total,
                monitors@.len() == i,
                forall|k: int|
                    0 <= k < i ==> monitors@[k].spec_matches(bytes@, 4 + 66 * k),
            decreases count - i,
        {
            if total - off < 66 {
                proof {
                    assert(bytes@.len() < 4 + 66 * spec_u32_at(bytes@, 0));
                }
                return Err(IpcError::UnexpectedEnd);
            }
            let mi = IcmMonitorInfo {
                x: read_i32_le(bytes, off),
                y: read_i32_le(bytes, off + 4),
                width: read_u32_le(bytes, off + 8),
                height: read_u32_le(bytes, off + 12),
                physical_width: read_u32_le(bytes, off + 16),
                physical_height: read_u32_le(bytes, off + 20),
                refresh_rate: read_u32_le(bytes, off + 24),
                scale: read_u32_le(bytes, off + 28),
                enabled: read_byte(bytes, off + 32) != 0,
                primary: read_byte(bytes, off + 33) != 0,
                name: read_zero_padded(bytes, off + 34, 32),
            };
            monitors.push(mi);
            off = off + 66;
            i = i + 1;
        }
        Ok((Self { monitors }, off))
    }

    /// Round trip: a value that matches the decoder's reading of `m`'s own
    /// encoding lists the same monitors, field for field, provided each name
    /// fits its 32-byte field and does not itself end in a zero byte.
    pub proof fn lemma_roundtrip(m: Self, m2: Self)
        requires
            m.monitors@.len() <= u32::MAX,
            forall|k: int|
                0 <= k < m.monitors@.len() ==> (#[trigger] m.monitors@[k].name@).len() <= 32,
            forall|k: int|
                0 <= k < m.monitors@.len() ==> ((#[trigger] m.monitors@[k].name@).len() > 0
                    ==> m.monitors@[k].name@[m.monitors@[k].name@.len() - 1] != 0),
            m2.spec_matches(m.spec_serialize()),
        ensures
            m2.monitors@.len() == m.monitors@.len(),
            forall|k: int|
                0 <= k < m.monitors@.len() ==> spec_monitor_eq(m2.monitors@[k], m.monitors@[k]),
    {
        let s = m.spec_serialize();
        let c = m.monitors@.len() as int;
        let p0 = spec_u32_le(m.monitors@.len() as u32);
        let rest = spec_monitors_le(m.monitors@);
        assert(s == p0 + rest);
        lemma_monitors_le_len(m.monitors@);
        assert(s.len() == 4 + 66 * c);
        assert(s[0] == p0[0]);
        assert(s[1] == p0[1]);
        assert(s[2] == p0[2]);
        assert(s[3] == p0[3]);
        lemma_u32_le_at(s, 0, m.monitors@.len() as u32);
        assert(m.monitors@.len() as u32 == c);
        assert(m2.monitors@.len() == c);
        assert forall|k: int|
            0 <= k < m.monitors@.len() implies spec_monitor_eq(
            m2.monitors@[k],
            m.monitors@[k],
        ) by {
            lemma_monitors_le_chunk(m.monitors@, k);
            assert forall|j: int| 0 <= j < 66 implies s.subrange(4 + 66 * k, 4 + 66 * k + 66)[j]
                == m.monitors@[k].spec_serialize()[j] by {
                assert(s[4 + 66 * k + j] == rest[66 * k + j]);
                assert(rest[66 * k + j] == rest.subrange(66 * k, 66 * k + 66)[j]);
            }
            assert(s.subrange(4 + 66 * k, 4 + 66 * k + 66) =~= m.monitors@[k].spec_serialize());
            IcmMonitorInfo::lemma_roundtrip_at(m.monitors@[k], m2.monitors@[k], s, 4 + 66 * k);
        }
    }
}

/// The registry's size table agrees with these codecs: every encoded
/// payload satisfies the length rule registered for its message type.
pub proof fn lemma_sizes_match_registry(
    query_monitors: IcmMsgQueryMonitors,
    monitors_data: IcmMsgMonitorsData,
)
    ensures
        spec_payload_len_ok(
            IcmIpcMsgType::QueryMonitors.spec_payload_shape(),
            query_monitors.spec_serialize().len() as int,
        ),
        spec_payload_len_ok(
            IcmIpcMsgType::MonitorsData.spec_payload_shape(),
            monitors_data.spec_serialize().len() as int,
        ),
{
    lemma_monitors_le_len(monitors_data.monitors@);
}

} // verus!
