//! Characters and texts in the form that the native library reads: one
//! byte for a character, and for a text its UTF-8 bytes with a NUL byte
//! behind them.

use vstd::prelude::*;
use vstd::string::StringSliceAdditionalSpecFns;
use vstd::utf8::{char_is_scalar, encode_scalar, encode_utf8, has_width_1_encoding};

verus! {

/// The native `char` that stands for `c`: the low eight bits of its code
/// point.
pub open spec fn native_char_of(c: char) -> u8 {
    (c as u32 % 0x100) as u8
}

/// Narrows a character to one native `char`.
pub fn native_char(c: char) -> (b: u8)
    ensures
        b == native_char_of(c),
{
    let code: u32 = c as u32;
    (code % 0x100) as u8
}

/// Whether `bytes` ends in a NUL byte and holds no other.
pub open spec fn is_c_string(bytes: Seq<u8>) -> bool {
    &&& bytes.len() > 0
    &&& bytes.last() == 0
    &&& forall|i: int| 0 <= i < bytes.len() - 1 ==> bytes[i] != 0
}

/// Tells whether `bytes` ends in a NUL byte and holds no other.
pub fn ends_in_only_nul(bytes: &[u8]) -> (ok: bool)
    ensures
        ok == is_c_string(bytes@),
{
    let len: usize = bytes.len();
    if len == 0 || bytes[len - 1] != 0 {
        return false;
    }
    let mut i: usize = 0;
    while i < len - 1
        invariant
            len == bytes.len(),
            0 < len,
            i <= len - 1,
            forall|j: int| 0 <= j < i ==> bytes@[j] != 0,
        decreases len - i,
    {
        if bytes[i] == 0 {
            return false;
        }
        i = i + 1;
    }
    true
}

/// The bytes of `s` with a NUL byte behind them, or nothing where `s` itself
/// holds the NUL character, which no native string can carry.
pub fn nul_terminated(s: &str) -> (text: Option<Vec<u8>>)
    ensures
        text is Some <==> !s@.contains('\0'),
        text matches Some(t) ==> t@ == s.spec_bytes().push(0u8) && is_c_string(t@),
{
    let bytes: &[u8] = s.as_bytes();
    let mut text: Vec<u8> = Vec::new();
    let mut i: usize = 0;
    while i < bytes.len()
        invariant
            bytes@ == s.spec_bytes(),
            i <= bytes.len(),
            text@ == bytes@.subrange(0, i as int),
            forall|j: int| 0 <= j < i ==> bytes@[j] != 0,
        decreases bytes.len() - i,
    {
        let b: u8 = bytes[i];
        if b == 0 {
            proof {
                lemma_nul_byte_iff_nul_char(s@);
            }
            return None;
        }
        text.push(b);
        i = i + 1;
    }
    proof {
        lemma_nul_byte_iff_nul_char(s@);
    }
    text.push(0);
    Some(text)
}

/// The UTF-8 encoding of one character holds a NUL byte exactly where the
/// character is NUL.
proof fn lemma_scalar_nul(c: char)
    ensures
        encode_scalar(c as u32).contains(0u8) <==> c == '\0',
{
    let v: u32 = c as u32;
    char_is_scalar(c);
    let bytes = encode_scalar(v);
    if has_width_1_encoding(v) {
        assert((v & 0x7F) as u8 == 0 <==> v == 0) by (bit_vector)
            requires
                v <= 0x7F,
        ;
        assert(bytes[0] == 0 <==> v == 0);
    } else {
        // Every byte of a longer encoding has its highest bit set.
        assert(0xC0u8 | ((v >> 6) & 0x1F) as u8 != 0) by (bit_vector);
        assert(0xE0u8 | ((v >> 12) & 0x0F) as u8 != 0) by (bit_vector);
        assert(0xF0u8 | ((v >> 18) & 0x7) as u8 != 0) by (bit_vector);
        assert(0x80u8 | (v & 0x3F) as u8 != 0) by (bit_vector);
        assert(0x80u8 | ((v >> 6) & 0x3F) as u8 != 0) by (bit_vector);
        assert(0x80u8 | ((v >> 12) & 0x3F) as u8 != 0) by (bit_vector);
    }
}

/// The UTF-8 bytes of a text hold a NUL byte exactly where the text holds the
/// NUL character: a text without that character can always be drawn.
pub proof fn lemma_nul_byte_iff_nul_char(chars: Seq<char>)
    ensures
        encode_utf8(chars).contains(0u8) <==> chars.contains('\0'),
    decreases chars.len(),
{
    if chars.len() > 0 {
        let rest = chars.drop_first();
        let head = encode_scalar(chars[0] as u32);
        let tail = encode_utf8(rest);
        lemma_scalar_nul(chars[0]);
        lemma_nul_byte_iff_nul_char(rest);
        if head.contains(0u8) {
            let i: int = choose|i: int| 0 <= i < head.len() && head[i] == 0u8;
            assert((head + tail)[i] == 0u8);
        }
        if tail.contains(0u8) {
            let i: int = choose|i: int| 0 <= i < tail.len() && tail[i] == 0u8;
            assert((head + tail)[head.len() + i] == 0u8);
        }
        if (head + tail).contains(0u8) {
            let i: int = choose|i: int| 0 <= i < (head + tail).len() && (head + tail)[i] == 0u8;
            assert(i < head.len() ==> head[i] == 0u8);
            assert(i >= head.len() ==> tail[i - head.len()] == 0u8);
        }
        if chars.contains('\0') {
            let j: int = choose|j: int| 0 <= j < chars.len() && chars[j] == '\0';
            assert(j > 0 ==> rest[j - 1] == '\0');
        }
    }
}

} // verus!
