//! Character-set boundary: strict transcoding between byte sequences and
//! text, for the Latin-1 (single byte per character), 7-bit ASCII, and UTF-8
//! character sets.
//!
//! Latin-1 and ASCII transcoding is performed by the `encoding` crate behind
//! trusted wrappers; the UTF-8 field checks go through `String::from_utf8`,
//! specified against the UTF-8 model of `vstd::utf8`.

use vstd::prelude::*;
use vstd::utf8::encode_utf8;
use vstd::utf8::valid_utf8;
use encoding::all::ASCII;
use encoding::all::ISO_8859_1;
use encoding::DecoderTrap;
use encoding::EncoderTrap;
use encoding::Encoding;

verus! {

/// The characters that a byte sequence spells when every byte is read as the
/// character with the same code point. This is exactly what Latin-1 decoding
/// yields, and what ASCII decoding yields on bytes below 128.
pub open spec fn byte_chars(b: Seq<u8>) -> Seq<char> {
    Seq::new(b.len(), |i: int| b[i] as char)
}

/// Whether every character of `s` has a Latin-1 byte, that is a code point of
/// at most 255.
pub open spec fn latin1_representable(s: Seq<char>) -> bool {
    forall|i: int| 0 <= i < s.len() ==> (#[trigger] s[i] as u32) < 256
}

/// The Latin-1 encoding of `s`: one byte per character, holding its code
/// point. Meaningful when `latin1_representable(s)` holds.
pub open spec fn latin1_bytes(s: Seq<char>) -> Seq<u8> {
    Seq::new(s.len(), |i: int| s[i] as u8)
}

/// Whether every character of `s` is 7-bit ASCII.
pub open spec fn ascii_representable(s: Seq<char>) -> bool {
    forall|i: int| 0 <= i < s.len() ==> (#[trigger] s[i] as u32) < 128
}

/// Whether every byte of `b` is a 7-bit ASCII byte.
pub open spec fn ascii_bytes(b: Seq<u8>) -> bool {
    forall|i: int| 0 <= i < b.len() ==> #[trigger] b[i] < 128
}

/// A character of code point below 256 survives the round trip through its
/// Latin-1 byte.
proof fn lemma_low_char_u8(c: char)
    requires
        (c as u32) < 256,
    ensures
        (c as u8) as u32 == c as u32,
        (c as u8) as char == c,
{
    assert((c as u8) as u32 == c as u32);
    vstd::utf8::char_u32_cast(c, c as u32);
    let b = c as u8;
    assert((b as char) as u32 == b as u32);
    vstd::utf8::char_u32_cast(b as char, b as u32);
}

/// Reading the Latin-1 bytes of a representable character sequence back as
/// characters gives the original sequence.
pub proof fn lemma_latin1_round_trip(s: Seq<char>)
    requires
        latin1_representable(s),
    ensures
        byte_chars(latin1_bytes(s)) == s,
{
    assert forall|i: int| 0 <= i < s.len() implies byte_chars(latin1_bytes(s))[i] == s[i] by {
        assert((s[i] as u32) < 256);
        lemma_low_char_u8(s[i]);
    }
    assert(byte_chars(latin1_bytes(s)) =~= s);
}

/// Reading any byte sequence as characters and encoding those characters back
/// to Latin-1 gives the original bytes; the characters read are always
/// Latin-1 representable. This is the decompress-then-recompress direction of
/// the compression round trip for Latin-1 text: the text decoded from a
/// decompressed stream always compresses back to a stream holding the same
/// bytes.
pub proof fn lemma_byte_chars_round_trip(b: Seq<u8>)
    ensures
        latin1_representable(byte_chars(b)),
        latin1_bytes(byte_chars(b)) == b,
{
    assert(latin1_bytes(byte_chars(b)) =~= b);
}

/// An ASCII-representable character sequence is Latin-1 representable, and
/// its Latin-1 bytes are all ASCII bytes.
pub proof fn lemma_ascii_latin1(s: Seq<char>)
    requires
        ascii_representable(s),
    ensures
        latin1_representable(s),
        ascii_bytes(latin1_bytes(s)),
{
    assert forall|i: int| 0 <= i < s.len() implies latin1_bytes(s)[i] < 128 by {
        assert((s[i] as u32) < 128);
        lemma_low_char_u8(s[i]);
    }
}

/// Characters read from ASCII bytes are ASCII representable, so a language
/// tag that decoded can always be encoded again.
pub proof fn lemma_ascii_byte_chars(b: Seq<u8>)
    requires
        ascii_bytes(b),
    ensures
        ascii_representable(byte_chars(b)),
{
}

/// Relies on the `encoding` crate's ISO-8859-1 decoder: every byte maps to
/// the character with the same code point, so strict decoding never fails.
#[verifier::external_body]
pub(crate) fn latin1_decode(bytes: &[u8]) -> (r: String)
    ensures
        r@ == byte_chars(bytes@),
{
    ISO_8859_1.decode(bytes, DecoderTrap::Strict).unwrap()
}

/// Relies on the `encoding` crate's ISO-8859-1 encoder in strict mode: a
/// character of code point at most 255 becomes the byte with that code point,
/// and any larger character fails the whole encode.
#[verifier::external_body]
pub(crate) fn latin1_encode(s: &str) -> (r: Option<Vec<u8>>)
    ensures
        r is Some <==> latin1_representable(s@),
        r is Some ==> r->0@ == latin1_bytes(s@),
{
    ISO_8859_1.encode(s, EncoderTrap::Strict).ok()
}

/// Relies on the `encoding` crate's ASCII decoder in strict mode: it fails
/// exactly when a byte of 128 or above occurs, and otherwise yields the
/// character with each byte's code point.
#[verifier::external_body]
pub(crate) fn ascii_decode(bytes: &[u8]) -> (r: Option<String>)
    ensures
        r is Some <==> ascii_bytes(bytes@),
        r is Some ==> r->0@ == byte_chars(bytes@),
{
    ASCII.decode(bytes, DecoderTrap::Strict).ok()
}

/// Relies on the `encoding` crate's ASCII encoder in strict mode: it fails
/// exactly when a character of code point 128 or above occurs, and otherwise
/// yields each character's code point as a byte.
#[verifier::external_body]
pub(crate) fn ascii_encode(s: &str) -> (r: Option<Vec<u8>>)
    ensures
        r is Some <==> ascii_representable(s@),
        r is Some ==> r->0@ == latin1_bytes(s@),
{
    ASCII.encode(s, EncoderTrap::Strict).ok()
}

/// Relies on std's `String::from_utf8`: it succeeds exactly on valid UTF-8
/// and returns a string holding exactly the given bytes.
#[verifier::external_body]
pub(crate) fn utf8_decode(bytes: Vec<u8>) -> (r: Option<String>)
    ensures
        r is Some <==> valid_utf8(bytes@),
        r is Some ==> encode_utf8(r->0@) == bytes@,
{
    String::from_utf8(bytes).ok()
}

} // verus!
