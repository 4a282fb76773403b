//! The plain-text record: a keyword and an uncompressed Latin-1 text.

use vstd::prelude::*;
use crate::charset;
use crate::charset::byte_chars;
use crate::charset::latin1_bytes;
use crate::charset::latin1_representable;
use crate::encodable::EncodableTextChunk;
use crate::errors::TextDecodingError;
use crate::errors::TextEncodingError;

verus! {

/// The wire payload of a plain-text chunk: the Latin-1 keyword, a null
/// separator, and the Latin-1 text.
pub open spec fn text_chunk_payload(keyword: Seq<char>, text: Seq<char>) -> Seq<u8> {
    latin1_bytes(keyword) + seq![0u8] + latin1_bytes(text)
}

/// Round trip for plain-text records: the keyword and text bytes that
/// `encode` lays out in the payload, read back by `decode` as Latin-1, give
/// the original fields, and the encoded keyword keeps its valid size. With
/// the contracts of `encode` and `decode`, decoding an encoded record yields
/// an equal record.
pub proof fn lemma_text_chunk_round_trip(keyword: Seq<char>, text: Seq<char>)
    requires
        latin1_representable(keyword),
        1 <= keyword.len() <= 79,
        latin1_representable(text),
    ensures
        byte_chars(latin1_bytes(keyword)) == keyword,
        byte_chars(latin1_bytes(text)) == text,
        1 <= latin1_bytes(keyword).len() <= 79,
{
    charset::lemma_latin1_round_trip(keyword);
    charset::lemma_latin1_round_trip(text);
}

/// A plain-text record. Both fields are Latin-1 on the wire; the keyword
/// must be 1 to 79 bytes once encoded.
#[derive(Clone, Debug, PartialEq, Eq)]
pub struct TEXtChunk {
    /// Keyword of the record, 1 to 79 bytes when encoded as Latin-1.
    pub keyword: String,
    /// Text of the record.
    pub text: String,
}

impl TEXtChunk {
    /// Constructs a plain-text record from its two fields.
    pub fn new(keyword: &str, text: &str) -> (r: Self)
        ensures
            r.keyword@ == keyword@,
            r.text@ == text@,
    {
        Self { keyword: keyword.to_owned(), text: text.to_owned() }
    }

    /// Decodes the pre-sliced keyword and text fields of a plain-text chunk
    /// payload, reading both strictly as Latin-1.
    pub fn decode(keyword_slice: &[u8], text_slice: &[u8]) -> (r: Result<
        Self,
        TextDecodingError,
    >)
        ensures
            keyword_slice@.len() == 0 || keyword_slice@.len() > 79 ==> r == Err::<
                Self,
                TextDecodingError,
            >(TextDecodingError::InvalidKeywordSize),
            1 <= keyword_slice@.len() <= 79 ==> {
                &&& r is Ok
                &&& r->Ok_0.keyword@ == byte_chars(keyword_slice@)
                &&& r->Ok_0.text@ == byte_chars(text_slice@)
            },
    {
        if keyword_slice.len() == 0 || keyword_slice.len() > 79 {
            return Err(TextDecodingError::InvalidKeywordSize);
        }
        Ok(Self {
            keyword: charset::latin1_decode(keyword_slice),
            text: charset::latin1_decode(text_slice),
        })
    }
}

impl EncodableTextChunk for TEXtChunk {
    /// Serialises the record to its wire payload, appended to `out`: the
    /// Latin-1 keyword, a null separator, and the Latin-1 text. Fails, with
    /// `out` untouched, when a field has a character above Latin-1 or the
    /// keyword size is invalid.
    fn encode(&self, out: &mut Vec<u8>) -> (r: Result<(), TextEncodingError>)
        ensures
            r is Ok <==> {
                &&& latin1_representable(self.keyword@)
                &&& 1 <= self.keyword@.len() <= 79
                &&& latin1_representable(self.text@)
            },
            r is Ok ==> final(out)@ == old(out)@ + text_chunk_payload(self.keyword@, self.text@),
            !latin1_representable(self.keyword@) ==> r == Err::<(), TextEncodingError>(
                TextEncodingError::Unrepresentable,
            ),
            latin1_representable(self.keyword@) && !(1 <= self.keyword@.len() <= 79) ==> r
                == Err::<(), TextEncodingError>(TextEncodingError::InvalidKeywordSize),
            latin1_representable(self.keyword@) && 1 <= self.keyword@.len() <= 79
                && !latin1_representable(self.text@) ==> r == Err::<(), TextEncodingError>(
                TextEncodingError::Unrepresentable,
            ),
    {
        let mut data = match charset::latin1_encode(self.keyword.as_str()) {
            Some(v) => v,
            None => {
                return Err(TextEncodingError::Unrepresentable);
            },
        };
        if data.len() == 0 || data.len() > 79 {
            return Err(TextEncodingError::InvalidKeywordSize);
        }
        data.push(0);
        let mut text_bytes = match charset::latin1_encode(self.text.as_str()) {
            Some(v) => v,
            None => {
                return Err(TextEncodingError::Unrepresentable);
            },
        };
        data.append(&mut text_bytes);
        proof {
            assert(data@ =~= text_chunk_payload(self.keyword@, self.text@));
        }
        out.append(&mut data);
        Ok(())
    }
}

} // verus!
