//! Well-formed UTF-8, stated over byte sequences and decided by a verified
//! scanner.
//!
//! Bucket names and object keys cross the call boundary as raw bytes; they are
//! accepted only when they form well-formed UTF-8 (Unicode's definition: no
//! overlong forms, no surrogate code points, nothing above U+10FFFF).

use vstd::prelude::*;

verus! {

/// A continuation byte of a multi-byte scalar: `10xxxxxx`.
pub open spec fn is_cont(b: u8) -> bool {
    0x80 <= b && b <= 0xBF
}

/// How many bytes a scalar beginning with lead byte `b0` occupies,
/// or 0 when `b0` can lead no well-formed scalar.
pub open spec fn scalar_len(b0: u8) -> int {
    if b0 <= 0x7F {
        1
    } else if 0xC2 <= b0 && b0 <= 0xDF {
        2
    } else if 0xE0 <= b0 && b0 <= 0xEF {
        3
    } else if 0xF0 <= b0 && b0 <= 0xF4 {
        4
    } else {
        0
    }
}

/// The admissible second byte after lead `b0` of a 3- or 4-byte scalar.
/// The four special leads narrow the range to rule out overlong forms,
/// surrogates, and code points above U+10FFFF.
pub open spec fn second_ok(b0: u8, b1: u8) -> bool {
    if b0 == 0xE0 {
        0xA0 <= b1 && b1 <= 0xBF
    } else if b0 == 0xED {
        0x80 <= b1 && b1 <= 0x9F
    } else if b0 == 0xF0 {
        0x90 <= b1 && b1 <= 0xBF
    } else if b0 == 0xF4 {
        0x80 <= b1 && b1 <= 0x8F
    } else {
        is_cont(b1)
    }
}

/// A well-formed scalar begins at position `i` of `s` and lies entirely
/// within `s`.
pub open spec fn valid_scalar_at(s: Seq<u8>, i: int) -> bool
    recommends
        0 <= i < s.len(),
{
    let b0 = s[i];
    let n = scalar_len(b0);
    if n == 1 {
        true
    } else if n == 2 {
        i + 2 <= s.len() && is_cont(s[i + 1])
    } else if n == 3 {
        i + 3 <= s.len() && second_ok(b0, s[i + 1]) && is_cont(s[i + 2])
    } else if n == 4 {
        i + 4 <= s.len() && second_ok(b0, s[i + 1]) && is_cont(s[i + 2]) && is_cont(s[i + 3])
    } else {
        false
    }
}

/// The suffix of `s` starting at `i` is a concatenation of well-formed
/// scalars.
pub open spec fn is_utf8_from(s: Seq<u8>, i: int) -> bool
    recommends
        0 <= i <= s.len(),
    decreases s.len() - i,
{
    if i >= s.len() {
        true
    } else if valid_scalar_at(s, i) {
        is_utf8_from(s, i + scalar_len(s[i]))
    } else {
        false
    }
}

/// `s` is well-formed UTF-8 in its entirety.
pub open spec fn is_utf8(s: Seq<u8>) -> bool {
    is_utf8_from(s, 0)
}

/// Decides whether `b` is a continuation byte.
pub fn cont_byte(b: u8) -> (r: bool)
    ensures
        r == is_cont(b),
{
    0x80 <= b && b <= 0xBF
}

/// Decides whether `b1` may follow the 3- or 4-byte lead `b0`.
pub fn second_byte_ok(b0: u8, b1: u8) -> (r: bool)
    ensures
        r == second_ok(b0, b1),
{
    if b0 == 0xE0 {
        0xA0 <= b1 && b1 <= 0xBF
    } else if b0 == 0xED {
        0x80 <= b1 && b1 <= 0x9F
    } else if b0 == 0xF0 {
        0x90 <= b1 && b1 <= 0xBF
    } else if b0 == 0xF4 {
        0x80 <= b1 && b1 <= 0x8F
    } else {
        cont_byte(b1)
    }
}

/// Decides whether `bytes` is well-formed UTF-8.
pub fn check_utf8(bytes: &[u8]) -> (ok: bool)
    ensures
        ok == is_utf8(bytes@),
{
    let n = bytes.len();
    let mut i: usize = 0;
    while i < n
        invariant
            n == bytes@.len(),
            i <= n,
            is_utf8(bytes@) == is_utf8_from(bytes@, i as int),
        decreases n - i,
    {
        let b0 = bytes[i];
        if b0 <= 0x7F {
            i = i + 1;
        } else if 0xC2 <= b0 && b0 <= 0xDF {
            if n - i < 2 || !cont_byte(bytes[i + 1]) {
                return false;
            }
            i = i + 2;
        } else if 0xE0 <= b0 && b0 <= 0xEF {
            if n - i < 3 || !second_byte_ok(b0, bytes[i + 1]) || !cont_byte(bytes[i + 2]) {
                return false;
            }
            i = i + 3;
        } else if 0xF0 <= b0 && b0 <= 0xF4 {
            if n - i < 4 || !second_byte_ok(b0, bytes[i + 1]) || !cont_byte(bytes[i + 2])
                || !cont_byte(bytes[i + 3]) {
                return false;
            }
            i = i + 4;
        } else {
            return false;
        }
    }
    true
}

} // verus!
