//! Decoding the text buffers the engine fills: a fixed-size buffer holding
//! a NUL-terminated byte string that must be validated as text.

use vstd::prelude::*;
use vstd::utf8::{valid_utf8, decode_utf8, encode_utf8, encode_scalar};
use crate::errors::Error;

verus! {

/// The index of the first NUL byte in `buf`, or `buf.len()` if there is
/// none: where the text in an engine-filled buffer ends.
pub open spec fn spec_first_nul(buf: Seq<u8>) -> int
    decreases buf.len(),
{
    if buf.len() == 0 {
        0
    } else if buf[0] == 0 {
        0
    } else {
        1 + spec_first_nul(buf.drop_first())
    }
}

/// The bytes of `buf` before its first NUL: the text the engine stored.
pub open spec fn spec_c_contents(buf: Seq<u8>) -> Seq<u8> {
    buf.take(spec_first_nul(buf))
}

/// What decoding an engine-filled text buffer yields: the bytes before the
/// first NUL, decoded as UTF-8, or nothing if they are not valid UTF-8.
pub open spec fn spec_decode_c(buf: Seq<u8>) -> Option<Seq<char>> {
    if valid_utf8(spec_c_contents(buf)) {
        Some(decode_utf8(spec_c_contents(buf)))
    } else {
        None
    }
}

/// `spec_first_nul` is exactly the least index holding a NUL byte.
pub proof fn lemma_first_nul_characterization(buf: Seq<u8>)
    ensures
        0 <= spec_first_nul(buf) <= buf.len(),
        forall|j: int| 0 <= j < spec_first_nul(buf) ==> buf[j] != 0,
        spec_first_nul(buf) < buf.len() ==> buf[spec_first_nul(buf)] == 0,
    decreases buf.len(),
{
    if buf.len() == 0 {
    } else if buf[0] == 0 {
    } else {
        lemma_first_nul_characterization(buf.drop_first());
        assert forall|j: int| 0 <= j < spec_first_nul(buf) implies buf[j] != 0 by {
            if j > 0 {
                assert(buf[j] == buf.drop_first()[j - 1]);
            }
        }
    }
}

/// The least index holding a NUL byte is `spec_first_nul`.
pub proof fn lemma_first_nul_of(buf: Seq<u8>, n: int)
    requires
        0 <= n <= buf.len(),
        forall|j: int| 0 <= j < n ==> buf[j] != 0,
        n < buf.len() ==> buf[n] == 0,
    ensures
        spec_first_nul(buf) == n,
{
    lemma_first_nul_characterization(buf);
    if spec_first_nul(buf) < n {
        assert(buf[spec_first_nul(buf)] != 0);
    } else if n < spec_first_nul(buf) {
        assert(buf[n] != 0);
    }
}

/// Relies on `String::from_utf8`: it succeeds exactly on valid UTF-8 input,
/// decoding it, and on failure its error hands the input bytes back
/// unchanged through `FromUtf8Error::into_bytes`.
#[verifier::external_body]
fn string_from_utf8(bytes: Vec<u8>) -> (r: Result<String, Vec<u8>>)
    ensures
        r is Ok <==> valid_utf8(bytes@),
        r matches Ok(s) ==> s@ == decode_utf8(bytes@),
        r matches Err(b) ==> b == bytes,
{
    match String::from_utf8(bytes) {
        Ok(s) => Ok(s),
        Err(e) => Err(e.into_bytes()),
    }
}

/// Decode an engine-filled text buffer: take the bytes before the first
/// NUL and validate them as UTF-8 text.  Bytes that are not text are a
/// checked error carrying the offending bytes, distinct from any engine
/// failure.
pub fn buf_to_string(buffer: &Vec<u8>) -> (r: Result<String, Error>)
    ensures
        spec_decode_c(buffer@) matches Some(s) ==> (r matches Ok(out) && out@ == s),
        spec_decode_c(buffer@) is None ==> (r matches Err(Error::Utf8(b))
            && b@ == spec_c_contents(buffer@)),
{
    let mut contents: Vec<u8> = Vec::new();
    let mut i: usize = 0;
    while i < buffer.len() && buffer[i] != 0
        invariant
            0 <= i <= buffer@.len(),
            forall|j: int| 0 <= j < i ==> buffer@[j] != 0,
            contents@ == buffer@.take(i as int),
        decreases buffer@.len() - i,
    {
        contents.push(buffer[i]);
        i += 1;
        assert(contents@ =~= buffer@.take(i as int));
    }
    proof {
        lemma_first_nul_of(buffer@, i as int);
    }
    match string_from_utf8(contents) {
        Ok(s) => Ok(s),
        Err(b) => Err(Error::Utf8(b)),
    }
}

/// No character other than NUL encodes to a NUL byte, so the encoding of a
/// NUL-free text contains no NUL byte.
pub proof fn lemma_encode_utf8_no_nul(chars: Seq<char>)
    requires
        forall|i: int| 0 <= i < chars.len() ==> chars[i] as u32 != 0,
    ensures
        forall|i: int| 0 <= i < encode_utf8(chars).len() ==> encode_utf8(chars)[i] != 0,
    decreases chars.len(),
{
    if chars.len() > 0 {
        let scalar = chars[0] as u32;
        assert(scalar != 0);
        assert forall|b: u8| encode_scalar(scalar).contains(b) implies b != 0 by {
            assert(scalar != 0 ==> (scalar & 0x7F) as u8 != 0 || scalar >= 0x80) by (bit_vector);
            assert((0xC0u8 | ((scalar >> 6) & 0x1F) as u8) != 0) by (bit_vector);
            assert((0xE0u8 | ((scalar >> 12) & 0x0F) as u8) != 0) by (bit_vector);
            assert((0xF0u8 | ((scalar >> 18) & 0x7) as u8) != 0) by (bit_vector);
            assert((0x80u8 | (scalar & 0x3F) as u8) != 0) by (bit_vector);
            assert((0x80u8 | ((scalar >> 6) & 0x3F) as u8) != 0) by (bit_vector);
            assert((0x80u8 | ((scalar >> 12) & 0x3F) as u8) != 0) by (bit_vector);
        }
        lemma_encode_utf8_no_nul(chars.drop_first());
        assert forall|i: int|
            0 <= i < encode_utf8(chars).len() implies encode_utf8(chars)[i] != 0 by {
            let head = encode_scalar(scalar);
            if i < head.len() {
                assert(encode_utf8(chars)[i] == head[i]);
                assert(head.contains(head[i]));
            } else {
                assert(encode_utf8(chars)[i] == encode_utf8(chars.drop_first())[i - head.len()]);
            }
        }
    }
}

/// A text with no NUL character, stored by the engine as its UTF-8 bytes
/// and padded with any number of trailing NUL bytes, decodes back to
/// exactly that text.  (A text containing NUL cannot survive the trip: the
/// buffer ends at its first NUL.)
pub proof fn lemma_keyword_text_round_trip(s: Seq<char>, padding: nat)
    requires
        forall|i: int| 0 <= i < s.len() ==> s[i] as u32 != 0,
    ensures
        spec_decode_c(encode_utf8(s) + Seq::new(padding, |i: int| 0u8)) == Some(s),
{
    let enc = encode_utf8(s);
    let buf = enc + Seq::new(padding, |i: int| 0u8);
    lemma_encode_utf8_no_nul(s);
    assert(forall|j: int| 0 <= j < enc.len() ==> buf[j] != 0);
    lemma_first_nul_of(buf, enc.len() as int);
    assert(spec_c_contents(buf) =~= enc);
    vstd::utf8::encode_utf8_valid_utf8(s);
    vstd::utf8::encode_utf8_decode_utf8(s);
}

} // verus!
