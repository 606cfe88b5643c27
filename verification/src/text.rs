//! Texts of events and the bytes that LibYAML holds for them.
//!
//! An event carries its anchors, tags and values as Rust strings. LibYAML
//! carries them as C strings: bytes that end at the first NUL. Going out, a
//! text is encoded as UTF-8 and must hold no NUL character. Coming in, bytes
//! are decoded as UTF-8, and bytes that are no valid UTF-8 are decoded
//! lossily.

use vstd::prelude::*;
use vstd::slice::slice_to_vec;
use vstd::utf8::*;

use crate::event_error::EventError;

verus! {

/// What `String::from_utf8_lossy` makes of `bytes`.
pub uninterp spec fn utf8_lossy(bytes: Seq<u8>) -> Seq<char>;

/// The text that a C string with the given bytes is read as: the text that
/// the bytes encode where they are valid UTF-8, and their lossy decoding
/// otherwise.
pub open spec fn decode_text(bytes: Seq<u8>) -> Seq<char> {
    if valid_utf8(bytes) {
        decode_utf8(bytes)
    } else {
        utf8_lossy(bytes)
    }
}

/// True when the text holds a NUL character.
pub open spec fn has_nul(text: Seq<char>) -> bool {
    text.contains('\0')
}

/// The bytes of the C string for a text: its UTF-8 encoding, or an error
/// where the text holds a NUL character.
pub open spec fn encode_text(text: Seq<char>) -> Result<Seq<u8>, EventError> {
    if has_nul(text) {
        Err(EventError)
    } else {
        Ok(encode_utf8(text))
    }
}

/// Calls `String::from_utf8_lossy`. Valid UTF-8 is decoded to the text that
/// it encodes; of other bytes the result is whatever the call gives, which
/// depends on the bytes alone.
#[verifier::external_body]
fn from_utf8_lossy(bytes: &[u8]) -> (text: String)
    ensures
        valid_utf8(bytes@) ==> text@ == decode_utf8(bytes@),
        !valid_utf8(bytes@) ==> text@ == utf8_lossy(bytes@),
{
    String::from_utf8_lossy(bytes).into_owned()
}

/// Read the bytes of a C string as a text.
pub fn text_from_raw(bytes: &[u8]) -> (text: String)
    ensures
        text@ == decode_text(bytes@),
{
    from_utf8_lossy(bytes)
}

/// No byte of the UTF-8 encoding of a character other than NUL is zero, and
/// the encoding of NUL is a single zero byte.
proof fn lemma_encode_scalar_nul(c: char)
    ensures
        encode_scalar(c as u32).contains(0u8) <==> c == '\0',
{
    let v = c as u32;
    let bytes = encode_scalar(v);
    char_is_scalar(c);
    assert(has_width_1_encoding(v) ==> (leading_byte_width_1(v) == 0 <==> v == 0))
        by (bit_vector);
    assert(leading_byte_width_2(v) != 0) by (bit_vector);
    assert(leading_byte_width_3(v) != 0) by (bit_vector);
    assert(leading_byte_width_4(v) != 0) by (bit_vector);
    assert(last_continuation_byte(v) != 0) by (bit_vector);
    assert(second_last_continuation_byte(v) != 0) by (bit_vector);
    assert(third_last_continuation_byte(v) != 0) by (bit_vector);
    if c == '\0' {
        assert(has_width_1_encoding(v));
        assert(bytes[0] == 0u8);
    } else {
        assert(v != 0);
        assert forall|i: int| 0 <= i < bytes.len() implies bytes[i] != 0u8 by {}
    }
}

/// The UTF-8 encoding of a text holds a zero byte exactly when the text
/// holds a NUL character.
pub proof fn lemma_encode_utf8_nul(text: Seq<char>)
    ensures
        encode_utf8(text).contains(0u8) <==> has_nul(text),
    decreases text.len(),
{
    if text.len() == 0 {
    } else {
        let head = encode_scalar(text[0] as u32);
        let tail = encode_utf8(text.drop_first());
        lemma_encode_scalar_nul(text[0]);
        lemma_encode_utf8_nul(text.drop_first());
        assert(encode_utf8(text) == head + tail);
        if has_nul(text) {
            let i = choose|i: int| 0 <= i < text.len() && text[i] == '\0';
            if i == 0 {
                let j = choose|j: int| 0 <= j < head.len() && head[j] == 0u8;
                assert((head + tail)[j] == 0u8);
            } else {
                assert(text.drop_first()[i - 1] == '\0');
                let j = choose|j: int| 0 <= j < tail.len() && tail[j] == 0u8;
                assert((head + tail)[head.len() + j] == 0u8);
            }
        }
        if (head + tail).contains(0u8) {
            let k = choose|k: int| 0 <= k < (head + tail).len() && (head + tail)[k] == 0u8;
            if k < head.len() {
                assert(head[k] == 0u8);
                assert(text[0] == '\0');
            } else {
                assert(tail[k - head.len()] == 0u8);
                let i = choose|i: int|
                    0 <= i < text.drop_first().len() && text.drop_first()[i] == '\0';
                assert(text[i + 1] == '\0');
            }
        }
    }
}

/// A text without NUL is read back unchanged from the bytes that it is
/// written as.
pub proof fn lemma_text_round_trip(text: Seq<char>)
    requires
        !has_nul(text),
    ensures
        encode_text(text) is Ok,
        decode_text(encode_text(text)->Ok_0) == text,
{
    encode_utf8_valid_utf8(text);
    encode_utf8_decode_utf8(text);
}

/// Write a text as the bytes of a C string, without the NUL that ends it.
pub fn text_into_raw(text: &str) -> (bytes: Result<Vec<u8>, EventError>)
    ensures
        match bytes {
            Ok(b) => encode_text(text@) == Ok::<Seq<u8>, EventError>(b@),
            Err(e) => encode_text(text@) == Err::<Seq<u8>, EventError>(e),
        },
{
    let encoded = text.as_bytes();
    let mut i: usize = 0;
    while i < encoded.len()
        invariant
            i <= encoded.len(),
            encoded@ == encode_utf8(text@),
            forall|k: int| 0 <= k < i ==> encoded@[k] != 0u8,
        decreases encoded.len() - i,
    {
        if encoded[i] == 0 {
            proof {
                assert(encoded@.contains(0u8));
                lemma_encode_utf8_nul(text@);
            }
            return Err(EventError);
        }
        i += 1;
    }
    proof {
        lemma_encode_utf8_nul(text@);
    }
    Ok(slice_to_vec(encoded))
}

} // verus!
