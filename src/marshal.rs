//! Conversions between host strings and the firmware's null-terminated byte
//! strings, and between firmware status bytes and booleans.
use vstd::prelude::*;
use vstd::string::StringSliceAdditionalSpecFns;
use vstd::utf8::*;

use crate::error::ScreenError;

verus! {

/// True when `b` holds a zero byte.
pub open spec fn has_nul(b: Seq<u8>) -> bool {
    exists|i: int| 0 <= i < b.len() && b[i] == 0
}

/// The bytes handed to the firmware for the text `t`: its UTF-8 encoding
/// followed by one zero byte.
pub open spec fn c_string_bytes(t: Seq<char>) -> Seq<u8> {
    encode_utf8(t).push(0)
}

/// The UTF-8 encoding of a scalar holds a zero byte exactly when the scalar
/// is zero: every byte of a longer encoding has its high bit set.
proof fn lemma_scalar_nul(v: u32)
    requires
        is_scalar(v),
    ensures
        has_nul(encode_scalar(v)) <==> v == 0,
{
    let e = encode_scalar(v);
    if has_width_1_encoding(v) {
        assert(((v & 0x7F) as u8 == 0) <==> v == 0) by (bit_vector)
            requires
                v <= 0x7F,
        ;
        assert(e[0] == leading_byte_width_1(v));
    } else {
        assert((0x80u8 | (v & 0x3F) as u8) != 0) by (bit_vector);
        assert((0x80u8 | ((v >> 6) & 0x3F) as u8) != 0) by (bit_vector);
        assert((0x80u8 | ((v >> 12) & 0x3F) as u8) != 0) by (bit_vector);
        assert((0xC0u8 | ((v >> 6) & 0x1F) as u8) != 0) by (bit_vector);
        assert((0xE0u8 | ((v >> 12) & 0x0F) as u8) != 0) by (bit_vector);
        assert((0xF0u8 | ((v >> 18) & 0x7) as u8) != 0) by (bit_vector);
        assert(forall|i: int| 0 <= i < e.len() ==> e[i] != 0);
    }
}

/// A text's UTF-8 encoding holds a zero byte exactly when the text holds the
/// character U+0000.
pub proof fn lemma_nul_byte_iff_nul_char(t: Seq<char>)
    ensures
        has_nul(encode_utf8(t)) <==> t.contains('\0'),
    decreases t.len(),
{
    if t.len() > 0 {
        let head = encode_scalar(t[0] as u32);
        let rest = t.drop_first();
        char_is_scalar(t[0]);
        lemma_scalar_nul(t[0] as u32);
        lemma_nul_byte_iff_nul_char(rest);
        let e = encode_utf8(t);
        assert(e == head + encode_utf8(rest));
        if has_nul(e) {
            let i = choose|i: int| 0 <= i < e.len() && e[i] == 0;
            if i < head.len() {
                assert(head[i] == 0);
                char_u32_cast(t[0], 0u32);
                char_u32_cast('\0', 0u32);
            } else {
                assert(encode_utf8(rest)[i - head.len()] == 0);
                let k = choose|k: int| 0 <= k < rest.len() && rest[k] == '\0';
                assert(t[k + 1] == '\0');
            }
        }
        if t.contains('\0') {
            let k = choose|k: int| 0 <= k < t.len() && t[k] == '\0';
            if k == 0 {
                let i = choose|i: int| 0 <= i < head.len() && head[i] == 0;
                assert(e[i] == 0);
            } else {
                assert(rest[k - 1] == '\0');
                let i = choose|i: int| 0 <= i < encode_utf8(rest).len() && encode_utf8(rest)[i] == 0;
                assert(e[head.len() + i] == 0);
            }
        }
    }
}

/// Builds the null-terminated form of `s`. Fails exactly when `s` holds a
/// zero byte, which the firmware would read as an early end of the string.
pub fn to_c_string(s: &str) -> (r: Result<Vec<u8>, ScreenError>)
    ensures
        r is Ok <==> !has_nul(s.spec_bytes()),
        r is Ok <==> !s@.contains('\0'),
        r matches Ok(v) ==> v@ == c_string_bytes(s@),
        r matches Err(e) ==> e == ScreenError::InvalidArgument,
{
    proof {
        lemma_nul_byte_iff_nul_char(s@);
    }
    let bytes = s.as_bytes();
    let mut out: Vec<u8> = Vec::new();
    let mut i: usize = 0;
    while i < bytes.len()
        invariant
            bytes@ == s.spec_bytes(),
            0 <= i <= bytes@.len(),
            out@ == bytes@.subrange(0, i as int),
            forall|j: int| 0 <= j < i ==> bytes@[j] != 0,
        decreases bytes@.len() - i,
    {
        if bytes[i] == 0 {
            assert(has_nul(s.spec_bytes()));
            proof {
                lemma_nul_byte_iff_nul_char(s@);
            }
            return Err(ScreenError::InvalidArgument);
        }
        out.push(bytes[i]);
        i += 1;
    }
    assert(out@ == bytes@);
    out.push(0);
    Ok(out)
}

/// Reads a firmware status byte: zero means failure, any other value success.
pub fn status_to_bool(code: u8) -> (r: bool)
    ensures
        r == (code != 0),
{
    code != 0
}

} // verus!
