//! Output buffers: the scratch region that the firmware writes a result
//! string into, and the reading of that string back into host form.
use vstd::prelude::*;
use vstd::utf8::{decode_utf8, encode_utf8, valid_utf8};

use crate::marshal::{c_string_bytes, has_nul};

verus! {

broadcast use vstd::utf8::group_utf8_lib;

/// Capacity, terminator included, of the scratch buffer that the adapter
/// hands to the firmware's string and token input entry points.
pub const INPUT_BUFFER_CAPACITY: usize = 256;

/// Index of the first zero byte of `b` at or after `i`, or `b.len()` where
/// there is none.
pub open spec fn nul_from(b: Seq<u8>, i: int) -> int
    decreases b.len() - i,
{
    if 0 <= i < b.len() {
        if b[i] == 0 {
            i
        } else {
            nul_from(b, i + 1)
        }
    } else {
        b.len() as int
    }
}

/// The text bytes that the output buffer `b` holds: those before its first
/// zero byte. The last slot is reserved for the terminator and is never read
/// as text, so the result is shorter than the buffer.
pub open spec fn output_text_bytes(b: Seq<u8>) -> Seq<u8> {
    if b.len() == 0 {
        Seq::empty()
    } else {
        let w = b.subrange(0, b.len() - 1);
        w.subrange(0, nul_from(w, 0))
    }
}

/// Where `b` holds no zero byte from index `i` on, the search runs to its end.
proof fn lemma_nul_from_none(b: Seq<u8>, i: int)
    requires
        0 <= i <= b.len(),
        !has_nul(b.subrange(i, b.len() as int)),
    ensures
        nul_from(b, i) == b.len(),
    decreases b.len() - i,
{
    if i < b.len() {
        assert(b.subrange(i, b.len() as int)[0] == b[i]);
        assert(b.subrange(i + 1, b.len() as int) =~= b.subrange(i, b.len() as int).drop_first());
        lemma_nul_from_none(b, i + 1);
    }
}

/// Marshaling a text that holds no zero byte, then reading the same bytes
/// back as an output buffer, gives the text again: the terminator that
/// marshaling appends is the only one the reader finds.
pub proof fn lemma_marshal_round_trip(t: Seq<char>)
    requires
        !has_nul(encode_utf8(t)),
    ensures
        output_text_bytes(c_string_bytes(t)) == encode_utf8(t),
        valid_utf8(output_text_bytes(c_string_bytes(t))),
        decode_utf8(output_text_bytes(c_string_bytes(t))) == t,
{
    let b = c_string_bytes(t);
    let w = b.subrange(0, b.len() - 1);
    assert(w =~= encode_utf8(t));
    assert(w.subrange(0, w.len() as int) =~= w);
    lemma_nul_from_none(w, 0);
}

/// Relies on `String::from_utf8`: it succeeds exactly on valid UTF-8, and the
/// string it returns holds the decoded characters.
#[verifier::external_body]
fn string_from_utf8(bytes: Vec<u8>) -> (r: Option<String>)
    ensures
        r is Some <==> valid_utf8(bytes@),
        r matches Some(s) ==> s@ == decode_utf8(bytes@),
{
    String::from_utf8(bytes).ok()
}

/// A zero-filled scratch buffer of `capacity` bytes, for the firmware to
/// write a null-terminated result into.
pub fn output_scratch(capacity: usize) -> (r: Vec<u8>)
    requires
        capacity >= 1,
    ensures
        r@ == Seq::new(capacity as nat, |i: int| 0u8),
{
    let mut r: Vec<u8> = Vec::new();
    let mut i: usize = 0;
    while i < capacity
        invariant
            0 <= i <= capacity,
            r@ == Seq::new(i as nat, |j: int| 0u8),
        decreases capacity - i,
    {
        r.push(0);
        i += 1;
        assert(r@ =~= Seq::new(i as nat, |j: int| 0u8));
    }
    r
}

/// Replaces the contents of `buffer` with the string that the firmware wrote
/// into `raw`. Where those bytes are not valid UTF-8, `buffer` is left as it
/// was and the result is `false`.
pub fn replace_with_output(buffer: &mut String, raw: &[u8]) -> (ok: bool)
    ensures
        ok <==> valid_utf8(output_text_bytes(raw@)),
        ok ==> final(buffer)@ == decode_utf8(output_text_bytes(raw@)),
        ok ==> encode_utf8(final(buffer)@) == output_text_bytes(raw@),
        ok && raw@.len() >= 1 ==> encode_utf8(final(buffer)@).len() < raw@.len(),
        !ok ==> final(buffer)@ == old(buffer)@,
{
    let limit: usize = if raw.len() == 0 {
        0
    } else {
        raw.len() - 1
    };
    let ghost w = if raw@.len() == 0 {
        raw@
    } else {
        raw@.subrange(0, raw@.len() - 1)
    };
    let mut text: Vec<u8> = Vec::new();
    let mut i: usize = 0;
    while i < limit && raw[i] != 0
        invariant
            limit as int == w.len(),
            w.len() <= raw@.len(),
            forall|j: int| 0 <= j < w.len() ==> w[j] == raw@[j],
            0 <= i <= limit,
            nul_from(w, 0) == nul_from(w, i as int),
            text@ == w.subrange(0, i as int),
        decreases limit - i,
    {
        text.push(raw[i]);
        i += 1;
        assert(text@ =~= w.subrange(0, i as int));
    }
    assert(nul_from(w, i as int) == i);
    assert(text@ == output_text_bytes(raw@));
    match string_from_utf8(text) {
        Some(s) => {
            *buffer = s;
            true
        },
        None => false,
    }
}

} // verus!
