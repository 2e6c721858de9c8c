//! Little-endian scalar encodings and the byte-level building blocks shared
//! by every payload codec: scalar write/read primitives, zero-padded
//! fixed-width fields, and null-terminator scanning.

use vstd::prelude::*;

verus! {

broadcast use vstd::slice::axiom_spec_len;

// ---------------------------------------------------------------------------
// Little-endian encodings of the wire scalars.
// ---------------------------------------------------------------------------

/// The two little-endian bytes of a `u16`.
pub open spec fn spec_u16_le(x: u16) -> Seq<u8> {
    seq![(x & 0xff) as u8, ((x >> 8) & 0xff) as u8]
}

/// The four little-endian bytes of a `u32`.
pub open spec fn spec_u32_le(x: u32) -> Seq<u8> {
    seq![
        (x & 0xff) as u8,
        ((x >> 8) & 0xff) as u8,
        ((x >> 16) & 0xff) as u8,
        ((x >> 24) & 0xff) as u8,
    ]
}

/// The four little-endian bytes of an `i32` (two's complement).
pub open spec fn spec_i32_le(x: i32) -> Seq<u8> {
    spec_u32_le(x as u32)
}

/// The single wire byte of a boolean: always exactly `0` or `1`.
pub open spec fn spec_bool_le(b: bool) -> Seq<u8> {
    seq![if b { 1u8 } else { 0u8 }]
}

// ---------------------------------------------------------------------------
// Reading scalars back out of a byte sequence at a given offset.
// ---------------------------------------------------------------------------

/// The `u16` stored little-endian at offset `o` of `s`.
pub open spec fn spec_u16_at(s: Seq<u8>, o: int) -> u16
    recommends
        0 <= o,
        o + 2 <= s.len(),
{
    (s[o] as u16) | ((s[o + 1] as u16) << 8)
}

/// The `u32` stored little-endian at offset `o` of `s`.
pub open spec fn spec_u32_at(s: Seq<u8>, o: int) -> u32
    recommends
        0 <= o,
        o + 4 <= s.len(),
{
    (s[o] as u32) | ((s[o + 1] as u32) << 8) | ((s[o + 2] as u32) << 16) | ((s[o + 3] as u32)
        << 24)
}

/// The `i32` stored little-endian at offset `o` of `s`.
pub open spec fn spec_i32_at(s: Seq<u8>, o: int) -> i32
    recommends
        0 <= o,
        o + 4 <= s.len(),
{
    spec_u32_at(s, o) as i32
}

// ---------------------------------------------------------------------------
// Round-trip facts: reading back what was written yields the value.
// ---------------------------------------------------------------------------

/// A `u16` written little-endian at offset `o` reads back as itself.
pub proof fn lemma_u16_le_at(s: Seq<u8>, o: int, x: u16)
    requires
        0 <= o,
        o + 2 <= s.len(),
        s[o] == spec_u16_le(x)[0],
        s[o + 1] == spec_u16_le(x)[1],
    ensures
        spec_u16_at(s, o) == x,
{
    let b0 = s[o];
    let b1 = s[o + 1];
    assert((b0 as u16) | ((b1 as u16) << 8) == x) by (bit_vector)
        requires
            b0 == (x & 0xff) as u8,
            b1 == ((x >> 8) & 0xff) as u8,
    ;
}

/// A `u32` written little-endian at offset `o` reads back as itself.
pub proof fn lemma_u32_le_at(s: Seq<u8>, o: int, x: u32)
    requires
        0 <= o,
        o + 4 <= s.len(),
        s[o] == spec_u32_le(x)[0],
        s[o + 1] == spec_u32_le(x)[1],
        s[o + 2] == spec_u32_le(x)[2],
        s[o + 3] == spec_u32_le(x)[3],
    ensures
        spec_u32_at(s, o) == x,
{
    let b0 = s[o];
    let b1 = s[o + 1];
    let b2 = s[o + 2];
    let b3 = s[o + 3];
    assert((b0 as u32) | ((b1 as u32) << 8) | ((b2 as u32) << 16) | ((b3 as u32) << 24) == x)
        by (bit_vector)
        requires
            b0 == (x & 0xff) as u8,
            b1 == ((x >> 8) & 0xff) as u8,
            b2 == ((x >> 16) & 0xff) as u8,
            b3 == ((x >> 24) & 0xff) as u8,
    ;
}

/// An `i32` written little-endian at offset `o` reads back as itself.
pub proof fn lemma_i32_le_at(s: Seq<u8>, o: int, x: i32)
    requires
        0 <= o,
        o + 4 <= s.len(),
        s[o] == spec_i32_le(x)[0],
        s[o + 1] == spec_i32_le(x)[1],
        s[o + 2] == spec_i32_le(x)[2],
        s[o + 3] == spec_i32_le(x)[3],
    ensures
        spec_i32_at(s, o) == x,
{
    lemma_u32_le_at(s, o, x as u32);
    assert(((x as u32) as i32) == x) by (bit_vector);
}

// ---------------------------------------------------------------------------
// Executable writers: append one scalar to an output buffer.
// ---------------------------------------------------------------------------

/// Append one raw byte.
pub fn write_byte(buf: &mut Vec<u8>, x: u8)
    ensures
        final(buf)@ == old(buf)@ + seq![x],
{
    buf.push(x);
    proof {
        assert(buf@ =~= old(buf)@ + seq![x]);
    }
}

/// Append the two little-endian bytes of `x`.
pub fn write_u16_le(buf: &mut Vec<u8>, x: u16)
    ensures
        final(buf)@ == old(buf)@ + spec_u16_le(x),
{
    buf.push((x & 0xff) as u8);
    buf.push(((x >> 8) & 0xff) as u8);
    proof {
        assert(buf@ =~= old(buf)@ + spec_u16_le(x));
    }
}

/// Append the four little-endian bytes of `x`.
pub fn write_u32_le(buf: &mut Vec<u8>, x: u32)
    ensures
        final(buf)@ == old(buf)@ + spec_u32_le(x),
{
    buf.push((x & 0xff) as u8);
    buf.push(((x >> 8) & 0xff) as u8);
    buf.push(((x >> 16) & 0xff) as u8);
    buf.push(((x >> 24) & 0xff) as u8);
    proof {
        assert(buf@ =~= old(buf)@ + spec_u32_le(x));
    }
}

/// Append the four little-endian bytes of `x` (two's complement).
pub fn write_i32_le(buf: &mut Vec<u8>, x: i32)
    ensures
        final(buf)@ == old(buf)@ + spec_i32_le(x),
{
    write_u32_le(buf, x as u32);
}

/// Append the single wire byte of a boolean, exactly `0` or `1`.
pub fn write_bool(buf: &mut Vec<u8>, b: bool)
    ensures
        final(buf)@ == old(buf)@ + spec_bool_le(b),
{
    buf.push(if b { 1u8 } else { 0u8 });
    proof {
        assert(buf@ =~= old(buf)@ + spec_bool_le(b));
    }
}

/// Append a run of raw bytes.
pub fn write_bytes(buf: &mut Vec<u8>, data: &[u8])
    ensures
        final(buf)@ == old(buf)@ + data@,
{
    buf.extend_from_slice(data);
}

// ---------------------------------------------------------------------------
// Executable readers: decode one scalar at a given offset of the input.
// ---------------------------------------------------------------------------

/// Read one raw byte at offset `o`.
pub fn read_byte(bytes: &[u8], o: usize) -> (r: u8)
    requires
        o < bytes@.len(),
    ensures
        r == bytes@[o as int],
{
    bytes[o]
}

/// Read the `u16` stored little-endian at offset `o`.
pub fn read_u16_le(bytes: &[u8], o: usize) -> (r: u16)
    requires
        o + 2 <= bytes@.len(),
    ensures
        r == spec_u16_at(bytes@, o as int),
{
    (bytes[o] as u16) | ((bytes[o + 1] as u16) << 8)
}

/// Read the `u32` stored little-endian at offset `o`.
pub fn read_u32_le(bytes: &[u8], o: usize) -> (r: u32)
    requires
        o + 4 <= bytes@.len(),
    ensures
        r == spec_u32_at(bytes@, o as int),
{
    (bytes[o] as u32) | ((bytes[o + 1] as u32) << 8) | ((bytes[o + 2] as u32) << 16) | ((bytes[o
        + 3] as u32) << 24)
}

/// Read the `i32` stored little-endian at offset `o`.
pub fn read_i32_le(bytes: &[u8], o: usize) -> (r: i32)
    requires
        o + 4 <= bytes@.len(),
    ensures
        r == spec_i32_at(bytes@, o as int),
{
    read_u32_le(bytes, o) as i32
}

/// Copy `n` raw bytes starting at offset `o` into a fresh vector.
pub fn read_bytes(bytes: &[u8], o: usize, n: usize) -> (r: Vec<u8>)
    requires
        o + n <= bytes@.len(),
    ensures
        r@ == bytes@.subrange(o as int, o as int + n as int),
{
    let total = bytes.len();
    vstd::slice::slice_to_vec(vstd::slice::slice_subrange(bytes, o, o + n))
}

// ---------------------------------------------------------------------------
// Fixed-width zero-padded fields.
// ---------------------------------------------------------------------------

/// `n` zero bytes.
pub open spec fn spec_zeros(n: int) -> Seq<u8> {
    Seq::new(n as nat, |i: int| 0u8)
}

/// `s` truncated to at most `width` bytes, then zero-padded to exactly
/// `width` bytes.
pub open spec fn spec_zero_pad(s: Seq<u8>, width: int) -> Seq<u8>
    recommends
        0 <= width,
{
    if s.len() >= width {
        s.subrange(0, width)
    } else {
        s + spec_zeros(width - s.len())
    }
}

/// `s` with every trailing zero byte removed.
pub open spec fn spec_strip_zeros(s: Seq<u8>) -> Seq<u8>
    decreases s.len(),
{
    if s.len() == 0 {
        s
    } else if s[s.len() - 1] == 0 {
        spec_strip_zeros(s.drop_last())
    } else {
        s
    }
}

/// Stripping trailing zeros keeps exactly the prefix that ends at the last
/// nonzero byte.
pub proof fn lemma_strip_zeros_split(s: Seq<u8>, e: int)
    requires
        0 <= e <= s.len(),
        forall|j: int| e <= j < s.len() ==> s[j] == 0,
        e > 0 ==> s[e - 1] != 0,
    ensures
        spec_strip_zeros(s) == s.subrange(0, e),
    decreases s.len(),
{
    if s.len() == 0 {
        assert(s.subrange(0, 0) =~= s);
    } else if e == s.len() {
        assert(s[s.len() - 1] != 0);
        assert(s.subrange(0, e) =~= s);
    } else {
        assert(s[s.len() - 1] == 0);
        assert(s.drop_last() =~= s.subrange(0, s.len() - 1));
        lemma_strip_zeros_split(s.drop_last(), e);
        assert(s.drop_last().subrange(0, e) =~= s.subrange(0, e));
    }
}

/// What stripping guarantees of an arbitrary input: the result is the prefix
/// up to and including the last nonzero byte, and everything after it was
/// zero.
pub proof fn lemma_strip_zeros_props(s: Seq<u8>)
    ensures
        spec_strip_zeros(s).len() <= s.len(),
        spec_strip_zeros(s) == s.subrange(0, spec_strip_zeros(s).len() as int),
        spec_strip_zeros(s).len() > 0 ==> spec_strip_zeros(s)[spec_strip_zeros(s).len() - 1]
            != 0,
        forall|j: int|
            spec_strip_zeros(s).len() <= j < s.len() ==> s[j] == 0,
    decreases s.len(),
{
    if s.len() == 0 {
        assert(s.subrange(0, 0) =~= s);
    } else if s[s.len() - 1] == 0 {
        lemma_strip_zeros_props(s.drop_last());
        assert(s.drop_last() =~= s.subrange(0, s.len() - 1));
        let r = spec_strip_zeros(s);
        assert(s.drop_last().subrange(0, r.len() as int) =~= s.subrange(0, r.len() as int));
        assert forall|j: int| r.len() <= j < s.len() implies s[j] == 0 by {
            if j < s.len() - 1 {
                assert(s.drop_last()[j] == 0);
            }
        }
    } else {
        assert(s.subrange(0, s.len() as int) =~= s);
    }
}

/// Truncation: padding an input at least `width` long yields exactly its
/// first `width` bytes, and an exact-width input passes through unchanged.
pub proof fn lemma_zero_pad_truncates(s: Seq<u8>, width: int)
    requires
        0 <= width <= s.len(),
    ensures
        spec_zero_pad(s, width) == s.subrange(0, width),
        spec_zero_pad(s, width).len() == width,
{
}

/// Round trip of a padded field: if the stored bytes fit the width and do not
/// themselves end in a zero byte, stripping the padded field restores them.
pub proof fn lemma_zero_pad_roundtrip(s: Seq<u8>, width: int)
    requires
        0 <= s.len() <= width,
        s.len() > 0 ==> s[s.len() - 1] != 0,
    ensures
        spec_zero_pad(s, width).len() == width,
        spec_strip_zeros(spec_zero_pad(s, width)) == s,
{
    let p = spec_zero_pad(s, width);
    if s.len() == width {
        assert(s.subrange(0, width) =~= s);
        lemma_strip_zeros_split(p, s.len() as int);
        assert(p.subrange(0, s.len() as int) =~= s);
    } else {
        assert(p =~= s + spec_zeros(width - s.len()));
        lemma_strip_zeros_split(p, s.len() as int);
        assert(p.subrange(0, s.len() as int) =~= s);
    }
}

/// Append `s` truncated to `width` bytes and zero-padded to exactly `width`.
pub fn write_zero_padded(buf: &mut Vec<u8>, data: &[u8], width: usize)
    ensures
        final(buf)@ == old(buf)@ + spec_zero_pad(data@, width as int),
{
    let ghost base = buf@;
    let ghost p = spec_zero_pad(data@, width as int);
    let mut i: usize = 0;
    while i < width
        invariant
            i <= width,
            p == spec_zero_pad(data@, width as int),
            p.len() == width,
            buf@.len() == base.len() + i,
            buf@ == base + p.subrange(0, i as int),
        decreases width - i,
    {
        if i < data.len() {
            buf.push(data[i]);
        } else {
            buf.push(0u8);
        }
        proof {
            assert(buf@ =~= base + p.subrange(0, i + 1 as int));
        }
        i = i + 1;
    }
    proof {
        assert(p.subrange(0, width as int) =~= p);
    }
}

/// Read a `width`-byte zero-padded field at offset `o`, stripping every
/// trailing zero byte.
pub fn read_zero_padded(bytes: &[u8], o: usize, width: usize) -> (r: Vec<u8>)
    requires
        o + width <= bytes@.len(),
    ensures
        r@ == spec_strip_zeros(bytes@.subrange(o as int, o as int + width as int)),
{
    let ghost field = bytes@.subrange(o as int, o as int + width as int);
    let total = bytes.len();
    let mut end: usize = width;
    while end > 0 && bytes[o + end - 1] == 0
        invariant
            end <= width,
            o + width <= total,
            total == bytes@.len(),
            field == bytes@.subrange(o as int, o as int + width as int),
            forall|j: int| end <= j < width ==> field[j] == 0,
        decreases end,
    {
        end = end - 1;
    }
    proof {
        lemma_strip_zeros_split(field, end as int);
    }
    let r = read_bytes(bytes, o, end);
    proof {
        assert(bytes@.subrange(o as int, o as int + end as int) =~= field.subrange(
            0,
            end as int,
        ));
    }
    r
}

// ---------------------------------------------------------------------------
// Runs of little-endian 32-bit words.
// ---------------------------------------------------------------------------

/// Each word of `s` encoded little-endian, back to back.
pub open spec fn spec_words_le(s: Seq<u32>) -> Seq<u8>
    decreases s.len(),
{
    if s.len() == 0 {
        Seq::empty()
    } else {
        spec_u32_le(s[0]) + spec_words_le(s.drop_first())
    }
}

/// A run of `k` words occupies `4 * k` bytes.
pub proof fn lemma_words_le_len(s: Seq<u32>)
    ensures
        spec_words_le(s).len() == 4 * s.len(),
    decreases s.len(),
{
    if s.len() > 0 {
        lemma_words_le_len(s.drop_first());
    }
}

/// Byte `4 * k + t` of a word run is byte `t` of word `k`.
pub proof fn lemma_words_le_index(s: Seq<u32>, k: int, t: int)
    requires
        0 <= k < s.len(),
        0 <= t < 4,
    ensures
        spec_words_le(s).len() == 4 * s.len(),
        spec_words_le(s)[4 * k + t] == spec_u32_le(s[k])[t],
    decreases k,
{
    lemma_words_le_len(s);
    lemma_words_le_len(s.drop_first());
    if k > 0 {
        lemma_words_le_index(s.drop_first(), k - 1, t);
        assert(spec_words_le(s)[4 * k + t] == spec_words_le(s.drop_first())[4 * (k - 1) + t]);
        assert(s.drop_first()[k - 1] == s[k]);
    }
}

/// Appending one word to the run appends its four bytes.
pub proof fn lemma_words_le_push(s: Seq<u32>, x: u32)
    ensures
        spec_words_le(s.push(x)) == spec_words_le(s) + spec_u32_le(x),
    decreases s.len(),
{
    if s.len() == 0 {
        assert(s.push(x)[0] == x);
        assert(s.push(x).drop_first() =~= Seq::<u32>::empty());
        assert(spec_words_le(Seq::<u32>::empty()) == Seq::<u8>::empty());
        assert(spec_words_le(s) == Seq::<u8>::empty());
        assert(spec_words_le(s.push(x)) =~= spec_words_le(s) + spec_u32_le(x));
    } else {
        assert(s.push(x)[0] == s[0]);
        assert(s.push(x).drop_first() =~= s.drop_first().push(x));
        lemma_words_le_push(s.drop_first(), x);
        assert(spec_words_le(s.push(x)) =~= spec_words_le(s) + spec_u32_le(x));
    }
}

// ---------------------------------------------------------------------------
// Null-terminated fields.
// ---------------------------------------------------------------------------

/// The offset of the first zero byte of `s` at or after `i`, if any.
pub open spec fn spec_find_zero(s: Seq<u8>, i: int) -> Option<int>
    recommends
        0 <= i <= s.len(),
    decreases s.len() - i,
{
    if i < 0 || i >= s.len() {
        None
    } else if s[i] == 0 {
        Some(i)
    } else {
        spec_find_zero(s, i + 1)
    }
}

/// The first zero at or after `i` is the zero that ends the scan.
pub proof fn lemma_find_zero_at(s: Seq<u8>, i: int, z: int)
    requires
        0 <= i <= z < s.len(),
        s[z] == 0,
        forall|j: int| i <= j < z ==> s[j] != 0,
    ensures
        spec_find_zero(s, i) == Some(z),
    decreases z - i,
{
    if i < z {
        lemma_find_zero_at(s, i + 1, z);
    }
}

/// A scan that runs off the end without meeting a zero finds none.
pub proof fn lemma_find_zero_none(s: Seq<u8>, i: int)
    requires
        0 <= i <= s.len(),
        forall|j: int| i <= j < s.len() ==> s[j] != 0,
    ensures
        spec_find_zero(s, i) == None::<int>,
    decreases s.len() - i,
{
    if i < s.len() {
        lemma_find_zero_none(s, i + 1);
    }
}

} // verus!
