//! Text on its way to the engine and back.
//!
//! The engine takes and gives NUL-terminated byte strings. Host text is
//! UTF-8, so it can be handed over as it is, provided that no byte of it is
//! zero; what comes back is host text exactly when it is well-formed UTF-8.

use vstd::prelude::*;
use vstd::utf8::*;

verus! {

/// The byte that ends a string in the engine's layout.
pub const NUL: u8 = 0;

/// Text that the engine can take whole: it holds no NUL character, so that
/// none of its bytes is the terminator.
pub open spec fn nul_free(text: Seq<char>) -> bool {
    !text.contains('\0')
}

/// The engine's layout of `text`: its UTF-8 bytes, then the terminator.
pub open spec fn native_layout(text: Seq<char>) -> Seq<u8> {
    encode_utf8(text).push(NUL)
}

/// Lays `text` out for the engine, or gives `None` where one of its bytes is
/// zero: such a text would be cut short on the other side.
pub fn native_text(text: &str) -> (r: Option<Vec<u8>>)
    ensures
        r is Some <==> nul_free(text@),
        r matches Some(v) ==> v@ == native_layout(text@),
{
    proof {
        lemma_nul_free_bytes(text@);
    }
    let bytes = text.as_bytes();
    let mut out: Vec<u8> = Vec::new();
    let mut i: usize = 0;
    while i < bytes.len()
        invariant
            i <= bytes.len(),
            bytes@ == encode_utf8(text@),
            nul_free(text@) <==> !bytes@.contains(NUL),
            out@ == bytes@.subrange(0, i as int),
            forall|k: int| 0 <= k < i ==> bytes@[k] != NUL,
        decreases bytes.len() - i,
    {
        let b: u8 = bytes[i];
        if b == NUL {
            assert(bytes@.contains(NUL));
            return None;
        }
        out.push(b);
        assert(out@ == bytes@.subrange(0, i + 1));
        i += 1;
    }
    assert(out@ == bytes@);
    out.push(NUL);
    Some(out)
}

/// Calls `std::str::from_utf8`. Taken on trust, not proved: the call
/// succeeds exactly when the bytes are well-formed UTF-8, and the text that
/// it gives is made of those very bytes.
#[verifier::external_body]
pub(crate) fn utf8_str(bytes: &[u8]) -> (r: Option<&str>)
    ensures
        r is Some <==> valid_utf8(bytes@),
        r matches Some(s) ==> encode_utf8(s@) == bytes@,
{
    match std::str::from_utf8(bytes) {
        Ok(s) => Some(s),
        Err(_) => None,
    }
}

/// Borrows bytes that the engine gave (without their terminator) as host
/// text. The engine is trusted to give well-formed UTF-8: anything else is
/// a breach of its contract, which this function does not take.
pub fn engine_text(bytes: &[u8]) -> (r: &str)
    requires
        valid_utf8(bytes@),
    ensures
        r@ == decode_utf8(bytes@),
{
    let s = utf8_str(bytes).unwrap();
    proof {
        encode_utf8_decode_utf8(s@);
    }
    s
}

/// Takes over a string that the engine returned: an owned copy of its
/// text, or no value where the engine returned none (end of input, a
/// cancelled edit, an index outside the history).
pub fn owned_copy(native: Option<&[u8]>) -> (r: Option<String>)
    requires
        native matches Some(bytes) ==> valid_utf8(bytes@),
    ensures
        r is None <==> native is None,
        r matches Some(s) ==> s@ == decode_utf8(native.unwrap()@),
{
    match native {
        None => None,
        Some(bytes) => Some(engine_text(bytes).to_owned()),
    }
}

/// Reads bytes that the engine gave (without their terminator) as host
/// text: an owned copy, or `None` where they are not well-formed UTF-8.
pub fn host_text(bytes: &[u8]) -> (r: Option<String>)
    ensures
        r is Some <==> valid_utf8(bytes@),
        r matches Some(s) ==> s@ == decode_utf8(bytes@),
{
    match utf8_str(bytes) {
        None => None,
        Some(s) => {
            proof {
                encode_utf8_decode_utf8(s@);
            }
            Some(s.to_owned())
        },
    }
}

proof fn lemma_leading_byte_zero(scalar: u32)
    by (bit_vector)
    requires
        scalar <= 0x7F,
    ensures
        ((scalar & 0x7F) as u8 == 0u8) <==> scalar == 0,
{
}

proof fn lemma_marked_byte_nonzero(bits: u8)
    by (bit_vector)
    ensures
        0x80u8 | bits != 0,
        0xC0u8 | bits != 0,
        0xE0u8 | bits != 0,
        0xF0u8 | bits != 0,
{
}

/// Only the scalar zero has a zero byte in its encoding.
proof fn lemma_scalar_zero_byte(scalar: u32)
    requires
        is_scalar(scalar),
    ensures
        encode_scalar(scalar).contains(NUL) <==> scalar == 0,
{
    let enc = encode_scalar(scalar);
    if has_width_1_encoding(scalar) {
        lemma_leading_byte_zero(scalar);
        if scalar == 0 {
            assert(enc[0] == NUL);
        }
    } else {
        lemma_marked_byte_nonzero(((scalar >> 6) & 0x1F) as u8);
        lemma_marked_byte_nonzero(((scalar >> 12) & 0x0F) as u8);
        lemma_marked_byte_nonzero(((scalar >> 18) & 0x7) as u8);
        lemma_marked_byte_nonzero((scalar & 0x3F) as u8);
        lemma_marked_byte_nonzero(((scalar >> 6) & 0x3F) as u8);
        lemma_marked_byte_nonzero(((scalar >> 12) & 0x3F) as u8);
        assert(forall|k: int| 0 <= k < enc.len() ==> enc[k] != NUL);
    }
}

/// A text has a zero byte in its UTF-8 encoding exactly when it holds the
/// NUL character.
pub proof fn lemma_nul_free_bytes(text: Seq<char>)
    ensures
        nul_free(text) <==> !encode_utf8(text).contains(NUL),
    decreases text.len(),
{
    if text.len() > 0 {
        let head = encode_scalar(text[0] as u32);
        let rest = text.drop_first();
        let tail = encode_utf8(rest);
        lemma_nul_free_bytes(rest);
        char_is_scalar(text[0]);
        lemma_scalar_zero_byte(text[0] as u32);
        char_u32_cast(text[0], text[0] as u32);
        char_u32_cast('\0', 0u32);
        assert((text[0] as u32 == 0) <==> text[0] == '\0');
        assert(encode_utf8(text) == head + tail);
        if text.contains('\0') {
            let i = choose|i: int| 0 <= i < text.len() && text[i] == '\0';
            if i == 0 {
                let k = choose|k: int| 0 <= k < head.len() && head[k] == NUL;
                assert((head + tail)[k] == NUL);
            } else {
                assert(rest[i - 1] == '\0');
                let k = choose|k: int| 0 <= k < tail.len() && tail[k] == NUL;
                assert((head + tail)[head.len() + k] == NUL);
            }
        }
        if (head + tail).contains(NUL) {
            let k = choose|k: int| 0 <= k < (head + tail).len() && (head + tail)[k] == NUL;
            if k < head.len() {
                assert(head[k] == NUL);
                assert(text[0] == '\0');
            } else {
                assert(tail[k - head.len()] == NUL);
                let i = choose|i: int| 0 <= i < rest.len() && rest[i] == '\0';
                assert(text[i + 1] == '\0');
            }
        }
    }
}

/// What was laid out for the engine reads back as the text it was: the
/// bytes before the terminator are well-formed and decode to `text`. For a
/// text free of NUL the terminator is the first zero byte, so that the
/// engine, which reads up to it, sees the whole text.
pub proof fn lemma_layout_round_trip(text: Seq<char>)
    ensures
        native_layout(text).len() == encode_utf8(text).len() + 1,
        native_layout(text).last() == NUL,
        valid_utf8(native_layout(text).drop_last()),
        decode_utf8(native_layout(text).drop_last()) == text,
        nul_free(text) <==> !native_layout(text).drop_last().contains(NUL),
{
    assert(native_layout(text).drop_last() == encode_utf8(text));
    encode_utf8_valid_utf8(text);
    encode_utf8_decode_utf8(text);
    lemma_nul_free_bytes(text);
}

} // verus!
