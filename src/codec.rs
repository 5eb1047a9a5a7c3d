//! The registry of selectable codecs, and what the codec library computes for them.

use vstd::prelude::*;
use vstd::utf8::*;

verus! {

/// One entry of the codec registry.
#[derive(Clone, Copy, Debug, PartialEq, Eq, Structural)]
pub enum Encoding {
    Utf8,
    Gbk,
    Big5,
    Iso88592,
}

/// The registry, in the order in which it is offered for selection.
pub open spec fn registry_spec() -> Seq<Encoding> {
    seq![Encoding::Utf8, Encoding::Gbk, Encoding::Big5, Encoding::Iso88592]
}

/// Whether every byte is a 7-bit ASCII byte.
pub open spec fn is_ascii_bytes(b: Seq<u8>) -> bool {
    forall|i: int| 0 <= i < b.len() ==> b[i] < 0x80
}

/// The characters that stand for a sequence of ASCII bytes, one per byte.
pub open spec fn ascii_chars_of(b: Seq<u8>) -> Seq<char> {
    b.map_values(|x: u8| x as char)
}

/// The bytes of a sequence of ASCII characters, one per character.
pub open spec fn ascii_bytes_of(s: Seq<char>) -> Seq<u8> {
    s.map_values(|c: char| c as u8)
}

impl Encoding {
    /// The human-readable label under which the codec is offered.
    pub open spec fn label_spec(self) -> Seq<char> {
        match self {
            Encoding::Utf8 => "UTF-8"@,
            Encoding::Gbk => "GBK"@,
            Encoding::Big5 => "BIG5"@,
            Encoding::Iso88592 => "ISO-8859-2"@,
        }
    }

    pub fn label(self) -> (r: &'static str)
        ensures
            r@ == self.label_spec(),
    {
        match self {
            Encoding::Utf8 => "UTF-8",
            Encoding::Gbk => "GBK",
            Encoding::Big5 => "BIG5",
            Encoding::Iso88592 => "ISO-8859-2",
        }
    }
}

/// The codecs of the registry, in order.
pub fn registry() -> (r: Vec<Encoding>)
    ensures
        r@ == registry_spec(),
{
    let r = vec![Encoding::Utf8, Encoding::Gbk, Encoding::Big5, Encoding::Iso88592];
    assert(r@ =~= registry_spec());
    r
}

/// The text that the codec library decodes `bytes` to under `codec`.
pub uninterp spec fn decoded(codec: Encoding, bytes: Seq<u8>) -> Seq<char>;

/// The bytes that the codec library encodes `text` to under `codec`.
pub uninterp spec fn encoded(codec: Encoding, text: Seq<char>) -> Seq<u8>;

/// The text that std reads a byte sequence as, with U+FFFD for each malformed
/// UTF-8 sequence.
pub uninterp spec fn utf8_lossy(bytes: Seq<u8>) -> Seq<char>;

/// Relies on encoding_rs::Encoding::decode (BOM sniffing, malformed sequences
/// replaced by U+FFFD): the result depends on the codec and the bytes alone, an
/// empty input gives an empty text, and ASCII-only input to one of these
/// ASCII-compatible codecs is returned unchanged (carries no BOM and is borrowed).
/// The UTF-8 form of the result stays within the decoders' worst-case bound of
/// three bytes per input byte plus a few; the input bound keeps that size
/// computation from overflowing, where decode panics.
#[verifier::external_body]
pub(crate) fn decode_in(codec: Encoding, bytes: &[u8]) -> (r: String)
    requires
        bytes@.len() <= usize::MAX / 8,
    ensures
        r@ == decoded(codec, bytes@),
        encode_utf8(r@).len() <= 4 * bytes@.len() + 4,
        is_ascii_bytes(bytes@) ==> r@ == ascii_chars_of(bytes@),
{
    let enc = match codec {
        Encoding::Utf8 => encoding_rs::UTF_8,
        Encoding::Gbk => encoding_rs::GBK,
        Encoding::Big5 => encoding_rs::BIG5,
        Encoding::Iso88592 => encoding_rs::ISO_8859_2,
    };
    enc.decode(bytes).0.into_owned()
}

/// Relies on encoding_rs::Encoding::encode (unmappable characters replaced by
/// numeric character references): the result depends on the codec and the text
/// alone, and ASCII-only text to one of these ASCII-compatible codecs is returned
/// as its own bytes (borrowed). No character takes more than five output bytes
/// per UTF-8 byte (a numeric reference such as `&#2047;` for a two-byte character
/// is the worst case); the input bound keeps the buffer growth from overflowing,
/// where encode panics.
#[verifier::external_body]
pub(crate) fn encode_in(codec: Encoding, text: &str) -> (r: Vec<u8>)
    requires
        encode_utf8(text@).len() <= usize::MAX / 64,
    ensures
        r@ == encoded(codec, text@),
        r@.len() <= 5 * encode_utf8(text@).len(),
        is_ascii_chars(text@) ==> r@ == ascii_bytes_of(text@),
{
    let enc = match codec {
        Encoding::Utf8 => encoding_rs::UTF_8,
        Encoding::Gbk => encoding_rs::GBK,
        Encoding::Big5 => encoding_rs::BIG5,
        Encoding::Iso88592 => encoding_rs::ISO_8859_2,
    };
    enc.encode(text).0.into_owned()
}

/// Relies on String::from_utf8_lossy: valid UTF-8 is decoded as such, each
/// malformed sequence becomes U+FFFD (three bytes for at least one); the input
/// bound keeps the result's capacity within what a `String` may hold.
#[verifier::external_body]
pub(crate) fn lossy_utf8(bytes: &[u8]) -> (r: String)
    requires
        bytes@.len() <= usize::MAX / 8,
    ensures
        r@ == utf8_lossy(bytes@),
        valid_utf8(bytes@) ==> r@ == decode_utf8(bytes@),
{
    String::from_utf8_lossy(bytes).into_owned()
}

} // verus!
