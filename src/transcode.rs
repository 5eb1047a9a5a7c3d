//! Decoding bytes under one codec and encoding the text under another.

use vstd::prelude::*;
use vstd::utf8::*;
use crate::codec::{
    Encoding, is_ascii_bytes, ascii_chars_of, ascii_bytes_of, decoded, encoded, utf8_lossy,
    decode_in, encode_in, lossy_utf8,
};

verus! {

/// The bytes that `bytes`, read under `from`, become under `to`. ASCII-only input
/// is left as it is by every codec of the registry.
pub open spec fn converted(bytes: Seq<u8>, from: Encoding, to: Encoding) -> Seq<u8> {
    if is_ascii_bytes(bytes) {
        bytes
    } else {
        encoded(to, decoded(from, bytes))
    }
}

/// How a byte sequence reads as UTF-8 text, malformed sequences replaced.
pub open spec fn read_utf8(bytes: Seq<u8>) -> Seq<char> {
    if valid_utf8(bytes) {
        decode_utf8(bytes)
    } else {
        utf8_lossy(bytes)
    }
}

/// The text shown for `text` converted from `from` to `to`: its UTF-8 bytes are
/// converted, and the result read back as UTF-8.
pub open spec fn text_converted(text: Seq<char>, from: Encoding, to: Encoding) -> Seq<char> {
    read_utf8(converted(encode_utf8(text), from, to))
}

proof fn lemma_ascii_chars_of(b: Seq<u8>)
    requires
        is_ascii_bytes(b),
    ensures
        is_ascii_chars(ascii_chars_of(b)),
        ascii_bytes_of(ascii_chars_of(b)) == b,
{
    assert forall|i: int| 0 <= i < b.len() implies ((b[i] as char) as u8) == b[i] by {
        let x = b[i];
        assert(x < 0x80);
    }
    assert(ascii_bytes_of(ascii_chars_of(b)) =~= b);
}

proof fn lemma_ascii_utf8(text: Seq<char>)
    requires
        is_ascii_chars(text),
    ensures
        is_ascii_bytes(encode_utf8(text)),
        valid_utf8(encode_utf8(text)),
        decode_utf8(encode_utf8(text)) == text,
{
    is_ascii_chars_encode_utf8(text);
    is_ascii_chars_nat_bound(text);
    encode_utf8_valid_utf8(text);
    encode_utf8_decode_utf8(text);
    let b = encode_utf8(text);
    assert forall|i: int| 0 <= i < b.len() implies b[i] < 0x80 by {
        assert((text[i] as nat) < 128);
        assert(text[i] as u8 == b[i]);
    }
}

/// Converts raw bytes from codec `from` to codec `to`. Malformed input and
/// unrepresentable characters are replaced as the codecs prescribe: this never
/// fails, and empty input gives empty output. The bound on the input's size is
/// what the codecs' buffer computations need.
pub fn transcode_bytes(data: &[u8], from: Encoding, to: Encoding) -> (r: Vec<u8>)
    requires
        data@.len() <= usize::MAX / 512,
    ensures
        r@ == converted(data@, from, to),
        data@.len() == 0 ==> r@.len() == 0,
        r@.len() <= 20 * data@.len() + 20,
{
    let text = decode_in(from, data);
    let out = encode_in(to, text.as_str());
    proof {
        if is_ascii_bytes(data@) {
            lemma_ascii_chars_of(data@);
        }
    }
    out
}

/// Converts typed text from codec `from` to codec `to` and reads the converted
/// bytes back as UTF-8 text. Always succeeds, whatever the input.
pub fn transcode_text(input: &str, from: Encoding, to: Encoding) -> (r: Result<String, String>)
    requires
        encode_utf8(input@).len() <= usize::MAX / 512,
    ensures
        r is Ok,
        r->Ok_0@ == text_converted(input@, from, to),
{
    let data = transcode_bytes(input.as_bytes(), from, to);
    let out = lossy_utf8(data.as_slice());
    Ok(out)
}

/// Converting empty input, from any codec to any codec, gives empty output.
pub proof fn lemma_empty_input(from: Encoding, to: Encoding)
    ensures
        converted(Seq::<u8>::empty(), from, to) == Seq::<u8>::empty(),
        text_converted(Seq::<char>::empty(), from, to) == Seq::<char>::empty(),
{
    lemma_ascii_utf8(Seq::<char>::empty());
    assert(encode_utf8(Seq::<char>::empty()) =~= Seq::<u8>::empty());
}

/// ASCII-only bytes are left as they are by a conversion between any two codecs;
/// so, converted from `s` to `t` and back again, they come out as a direct
/// conversion from `s` to `s` gives them, which is the input itself.
pub proof fn lemma_ascii_round_trip(bytes: Seq<u8>, s: Encoding, t: Encoding)
    requires
        is_ascii_bytes(bytes),
    ensures
        converted(bytes, s, t) == bytes,
        converted(converted(bytes, s, t), t, s) == converted(bytes, s, s),
        converted(bytes, s, s) == bytes,
{
}

/// ASCII-only text is left as it is by a conversion between any two codecs; so,
/// converted from `s` to `t` and back again, it comes out as a direct
/// conversion from `s` to `s` gives it, which is the text itself.
pub proof fn lemma_ascii_text_round_trip(text: Seq<char>, s: Encoding, t: Encoding)
    requires
        is_ascii_chars(text),
    ensures
        text_converted(text, s, t) == text,
        text_converted(text_converted(text, s, t), t, s) == text_converted(text, s, s),
        text_converted(text, s, s) == text,
{
    lemma_ascii_utf8(text);
}

} // verus!
