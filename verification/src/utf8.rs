//! UTF-8 validity of a byte sequence, with a verified checker.
//!
//! Null-terminated string fields are rejected when their bytes are not valid
//! UTF-8, so the codec needs its own account of validity: a byte sequence is
//! valid when it splits into well-formed scalar-value encodings — one byte up
//! to `0x7F`, or a leading byte followed by the right number of continuation
//! bytes, excluding overlong forms, surrogates, and values above `0x10FFFF`.

use vstd::prelude::*;

verus! {

/// A UTF-8 continuation byte: `0b10xx_xxxx`.
pub open spec fn spec_is_cont(b: u8) -> bool {
    0x80 <= b && b <= 0xBF
}

/// The suffix of `s` that starts at `i` is a sequence of well-formed UTF-8
/// scalar-value encodings.
pub open spec fn spec_is_utf8_from(s: Seq<u8>, i: int) -> bool
    recommends
        0 <= i <= s.len(),
    decreases s.len() - i,
{
    if i < 0 || i >= s.len() {
        true
    } else {
        let b0 = s[i];
        if b0 <= 0x7F {
            spec_is_utf8_from(s, i + 1)
        } else if 0xC2 <= b0 && b0 <= 0xDF {
            if i + 2 <= s.len() {
                spec_is_cont(s[i + 1]) && spec_is_utf8_from(s, i + 2)
            } else {
                false
            }
        } else if b0 == 0xE0 {
            if i + 3 <= s.len() {
                0xA0 <= s[i + 1] && s[i + 1] <= 0xBF && spec_is_cont(s[i + 2])
                    && spec_is_utf8_from(s, i + 3)
            } else {
                false
            }
        } else if (0xE1 <= b0 && b0 <= 0xEC) || b0 == 0xEE || b0 == 0xEF {
            if i + 3 <= s.len() {
                spec_is_cont(s[i + 1]) && spec_is_cont(s[i + 2]) && spec_is_utf8_from(s, i + 3)
            } else {
                false
            }
        } else if b0 == 0xED {
            if i + 3 <= s.len() {
                0x80 <= s[i + 1] && s[i + 1] <= 0x9F && spec_is_cont(s[i + 2])
                    && spec_is_utf8_from(s, i + 3)
            } else {
                false
            }
        } else if b0 == 0xF0 {
            if i + 4 <= s.len() {
                0x90 <= s[i + 1] && s[i + 1] <= 0xBF && spec_is_cont(s[i + 2]) && spec_is_cont(
                    s[i + 3],
                ) && spec_is_utf8_from(s, i + 4)
            } else {
                false
            }
        } else if 0xF1 <= b0 && b0 <= 0xF3 {
            if i + 4 <= s.len() {
                spec_is_cont(s[i + 1]) && spec_is_cont(s[i + 2]) && spec_is_cont(s[i + 3])
                    && spec_is_utf8_from(s, i + 4)
            } else {
                false
            }
        } else if b0 == 0xF4 {
            if i + 4 <= s.len() {
                0x80 <= s[i + 1] && s[i + 1] <= 0x8F && spec_is_cont(s[i + 2]) && spec_is_cont(
                    s[i + 3],
                ) && spec_is_utf8_from(s, i + 4)
            } else {
                false
            }
        } else {
            false
        }
    }
}

/// `s` as a whole is valid UTF-8.
pub open spec fn spec_is_utf8(s: Seq<u8>) -> bool {
    spec_is_utf8_from(s, 0)
}

/// Check whether `bytes` is valid UTF-8.
pub fn is_utf8(bytes: &[u8]) -> (r: bool)
    ensures
        r == spec_is_utf8(bytes@),
{
    let n = bytes.len();
    let mut i: usize = 0;
    while i < n
        invariant
            i <= n,
            n == bytes@.len(),
            spec_is_utf8(bytes@) == spec_is_utf8_from(bytes@, i as int),
        decreases n - i,
    {
        let b0 = bytes[i];
        if b0 <= 0x7F {
            i = i + 1;
        } else if 0xC2 <= b0 && b0 <= 0xDF {
            if !(n - i >= 2 && 0x80 <= bytes[i + 1] && bytes[i + 1] <= 0xBF) {
                return false;
            }
            i = i + 2;
        } else if b0 == 0xE0 {
            if !(n - i >= 3 && 0xA0 <= bytes[i + 1] && bytes[i + 1] <= 0xBF && 0x80 <= bytes[i
                + 2] && bytes[i + 2] <= 0xBF) {
                return false;
            }
            i = i + 3;
        } else if (0xE1 <= b0 && b0 <= 0xEC) || b0 == 0xEE || b0 == 0xEF {
            if !(n - i >= 3 && 0x80 <= bytes[i + 1] && bytes[i + 1] <= 0xBF && 0x80 <= bytes[i
                + 2] && bytes[i + 2] <= 0xBF) {
                return false;
            }
            i = i + 3;
        } else if b0 == 0xED {
            if !(n - i >= 3 && 0x80 <= bytes[i + 1] && bytes[i + 1] <= 0x9F && 0x80 <= bytes[i
                + 2] && bytes[i + 2] <= 0xBF) {
                return false;
            }
            i = i + 3;
        } else if b0 == 0xF0 {
            if !(n - i >= 4 && 0x90 <= bytes[i + 1] && bytes[i + 1] <= 0xBF && 0x80 <= bytes[i
                + 2] && bytes[i + 2] <= 0xBF && 0x80 <= bytes[i + 3] && bytes[i + 3] <= 0xBF) {
                return false;
            }
            i = i + 4;
        } else if 0xF1 <= b0 && b0 <= 0xF3 {
            if !(n - i >= 4 && 0x80 <= bytes[i + 1] && bytes[i + 1] <= 0xBF && 0x80 <= bytes[i
                + 2] && bytes[i + 2] <= 0xBF && 0x80 <= bytes[i + 3] && bytes[i + 3] <= 0xBF) {
                return false;
            }
            i = i + 4;
        } else if b0 == 0xF4 {
            if !(n - i >= 4 && 0x80 <= bytes[i + 1] && bytes[i + 1] <= 0x8F && 0x80 <= bytes[i
                + 2] && bytes[i + 2] <= 0xBF && 0x80 <= bytes[i + 3] && bytes[i + 3] <= 0xBF) {
                return false;
            }
            i = i + 4;
        } else {
            return false;
        }
    }
    true
}

} // verus!
