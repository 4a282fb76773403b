//! The compressed-text record: a keyword and a Latin-1 text that is always
//! compressed on the wire, held in memory in either form.

use vstd::prelude::*;
use vstd::slice::slice_to_vec;
use crate::charset;
use crate::charset::byte_chars;
use crate::charset::latin1_bytes;
use crate::charset::latin1_representable;
use crate::compressed::OptCompressed;
use crate::encodable::EncodableTextChunk;
use crate::errors::TextDecodingError;
use crate::errors::TextEncodingError;
use crate::zlib;
use crate::zlib::deflate_of;
use crate::zlib::inflate_of;

verus! {

/// The leading bytes of a compressed-text chunk payload: the Latin-1
/// keyword, a null separator, and the single valid compression method byte.
/// The compressed text bytes follow.
pub open spec fn ztxt_prefix(keyword: Seq<char>) -> Seq<u8> {
    latin1_bytes(keyword) + seq![0u8, 0u8]
}

/// Round trip for compressed-text records. `compress_text` and `encode`
/// guarantee that the compressed bytes they produce decompress to the
/// text's Latin-1 bytes; for any such bytes, decoding them (as `decode`
/// stores them) and then decompressing (as `decompress_text` and `get_text`
/// read them) gives back the original keyword and text.
pub proof fn lemma_ztxt_round_trip(keyword: Seq<char>, text: Seq<char>, compressed: Seq<u8>)
    requires
        latin1_representable(keyword),
        1 <= keyword.len() <= 79,
        latin1_representable(text),
        inflate_of(compressed) == Some(latin1_bytes(text)),
    ensures
        byte_chars(latin1_bytes(keyword)) == keyword,
        byte_chars(inflate_of(compressed)->0) == text,
        1 <= latin1_bytes(keyword).len() <= 79,
{
    charset::lemma_latin1_round_trip(keyword);
    charset::lemma_latin1_round_trip(text);
}

/// A compressed-text record. The wire form of the text is always
/// compressed; in memory either form can be held.
#[derive(Clone, Debug, PartialEq, Eq)]
pub struct ZTXtChunk {
    /// Keyword of the record, 1 to 79 bytes when encoded as Latin-1.
    pub keyword: String,
    /// Text of the record, in compressed or decoded form.
    pub optionally_compressed_text: OptCompressed,
}

impl ZTXtChunk {
    /// Constructs a compressed-text record holding its text in decoded form.
    pub fn new(keyword: &str, text: &str) -> (r: Self)
        ensures
            r.keyword@ == keyword@,
            r.optionally_compressed_text matches OptCompressed::Uncompressed(s) && s@ == text@,
    {
        Self {
            keyword: keyword.to_owned(),
            optionally_compressed_text: OptCompressed::Uncompressed(text.to_owned()),
        }
    }

    /// Decodes the pre-sliced fields of a compressed-text chunk payload. The
    /// text bytes are stored as they stand, with no eager decompression.
    pub fn decode(keyword_slice: &[u8], compression_method: u8, text_slice: &[u8]) -> (r: Result<
        Self,
        TextDecodingError,
    >)
        ensures
            keyword_slice@.len() == 0 || keyword_slice@.len() > 79 ==> r == Err::<
                Self,
                TextDecodingError,
            >(TextDecodingError::InvalidKeywordSize),
            1 <= keyword_slice@.len() <= 79 && compression_method != 0 ==> r == Err::<
                Self,
                TextDecodingError,
            >(TextDecodingError::InvalidCompressionMethod),
            1 <= keyword_slice@.len() <= 79 && compression_method == 0 ==> {
                &&& r is Ok
                &&& r->Ok_0.keyword@ == byte_chars(keyword_slice@)
                &&& r->Ok_0.optionally_compressed_text matches OptCompressed::Compressed(v)
                    && v@ == text_slice@
            },
    {
        if keyword_slice.len() == 0 || keyword_slice.len() > 79 {
            return Err(TextDecodingError::InvalidKeywordSize);
        }
        if compression_method != 0 {
            return Err(TextDecodingError::InvalidCompressionMethod);
        }
        Ok(Self {
            keyword: charset::latin1_decode(keyword_slice),
            optionally_compressed_text: OptCompressed::Compressed(slice_to_vec(text_slice)),
        })
    }

    /// Decompresses the text in place. A record already holding decoded text
    /// is left as it is; corrupt compressed bytes fail the call and leave the
    /// record unchanged.
    pub fn decompress_text(&mut self) -> (r: Result<(), TextDecodingError>)
        ensures
            old(self).optionally_compressed_text matches OptCompressed::Uncompressed(_) ==> r
                is Ok && *final(self) == *old(self),
            old(self).optionally_compressed_text matches OptCompressed::Compressed(v) ==> {
                &&& inflate_of(v@) is None ==> r == Err::<(), TextDecodingError>(
                    TextDecodingError::InflationError,
                ) && *final(self) == *old(self)
                &&& inflate_of(v@) matches Some(b) ==> {
                    &&& r is Ok
                    &&& final(self).keyword == old(self).keyword
                    &&& final(self).optionally_compressed_text matches OptCompressed::Uncompressed(
                        s,
                    ) && s@ == byte_chars(b)
                }
            },
    {
        match &self.optionally_compressed_text {
            OptCompressed::Compressed(v) => {
                match zlib::zlib_inflate(v.as_slice()) {
                    None => Err(TextDecodingError::InflationError),
                    Some(raw) => {
                        self.optionally_compressed_text = OptCompressed::Uncompressed(
                            charset::latin1_decode(raw.as_slice()),
                        );
                        Ok(())
                    },
                }
            },
            OptCompressed::Uncompressed(_) => Ok(()),
        }
    }

    /// Returns the decoded text without mutating the stored state,
    /// decompressing on the fly when the record holds compressed bytes.
    pub fn get_text(&self) -> (r: Result<String, TextDecodingError>)
        ensures
            self.optionally_compressed_text matches OptCompressed::Uncompressed(s) ==> r is Ok
                && r->Ok_0@ == s@,
            self.optionally_compressed_text matches OptCompressed::Compressed(v) ==> {
                &&& inflate_of(v@) is None ==> r == Err::<String, TextDecodingError>(
                    TextDecodingError::InflationError,
                )
                &&& inflate_of(v@) matches Some(b) ==> r is Ok && r->Ok_0@ == byte_chars(b)
            },
    {
        match &self.optionally_compressed_text {
            OptCompressed::Compressed(v) => {
                match zlib::zlib_inflate(v.as_slice()) {
                    None => Err(TextDecodingError::InflationError),
                    Some(raw) => Ok(charset::latin1_decode(raw.as_slice())),
                }
            },
            OptCompressed::Uncompressed(s) => Ok(s.clone()),
        }
    }

    /// Compresses the text in place. A record already holding compressed
    /// bytes is left as it is. On success the new compressed bytes are
    /// exactly what decompresses back to the text's Latin-1 bytes.
    pub fn compress_text(&mut self) -> (r: Result<(), TextEncodingError>)
        ensures
            old(self).optionally_compressed_text matches OptCompressed::Compressed(_) ==> r
                is Ok && *final(self) == *old(self),
            old(self).optionally_compressed_text matches OptCompressed::Uncompressed(s) ==> {
                &&& !latin1_representable(s@) ==> r == Err::<(), TextEncodingError>(
                    TextEncodingError::Unrepresentable,
                ) && *final(self) == *old(self)
                &&& latin1_representable(s@) ==> {
                    &&& r is Err ==> r == Err::<(), TextEncodingError>(
                        TextEncodingError::CompressionError,
                    ) && *final(self) == *old(self)
                    &&& r is Ok ==> {
                        &&& final(self).keyword == old(self).keyword
                        &&& final(self).optionally_compressed_text
                            matches OptCompressed::Compressed(v) && v@ == deflate_of(
                            latin1_bytes(s@),
                        ) && inflate_of(v@) == Some(latin1_bytes(s@))
                    }
                }
            },
    {
        match &self.optionally_compressed_text {
            OptCompressed::Uncompressed(s) => {
                let raw = match charset::latin1_encode(s.as_str()) {
                    Some(v) => v,
                    None => {
                        return Err(TextEncodingError::Unrepresentable);
                    },
                };
                match zlib::zlib_compress(raw.as_slice()) {
                    None => Err(TextEncodingError::CompressionError),
                    Some(compressed) => {
                        self.optionally_compressed_text = OptCompressed::Compressed(compressed);
                        Ok(())
                    },
                }
            },
            OptCompressed::Compressed(_) => Ok(()),
        }
    }
}

impl EncodableTextChunk for ZTXtChunk {
    /// Serialises the record to its wire payload, appended to `out`: the
    /// Latin-1 keyword, a null separator, the compression method byte, and
    /// the compressed text. Text held in decoded form is compressed on
    /// demand; text already compressed is written as it stands. On failure
    /// `out` is untouched.
    fn encode(&self, out: &mut Vec<u8>) -> (r: Result<(), TextEncodingError>)
        ensures
            !latin1_representable(self.keyword@) ==> r == Err::<(), TextEncodingError>(
                TextEncodingError::Unrepresentable,
            ),
            latin1_representable(self.keyword@) && !(1 <= self.keyword@.len() <= 79) ==> r
                == Err::<(), TextEncodingError>(TextEncodingError::InvalidKeywordSize),
            latin1_representable(self.keyword@) && 1 <= self.keyword@.len() <= 79 ==> {
                &&& self.optionally_compressed_text matches OptCompressed::Compressed(v) ==> r
                    is Ok && final(out)@ == old(out)@ + ztxt_prefix(self.keyword@) + v@
                &&& self.optionally_compressed_text matches OptCompressed::Uncompressed(s) ==> {
                    &&& !latin1_representable(s@) ==> r == Err::<(), TextEncodingError>(
                        TextEncodingError::Unrepresentable,
                    )
                    &&& latin1_representable(s@) ==> {
                        &&& r is Err ==> r == Err::<(), TextEncodingError>(
                            TextEncodingError::CompressionError,
                        )
                        &&& r is Ok ==> final(out)@ == old(out)@ + ztxt_prefix(self.keyword@)
                            + deflate_of(latin1_bytes(s@))
                    }
                }
            },
    {
        let mut data = match charset::latin1_encode(self.keyword.as_str()) {
            Some(v) => v,
            None => {
                return Err(TextEncodingError::Unrepresentable);
            },
        };
        if data.len() == 0 || data.len() > 79 {
            return Err(TextEncodingError::InvalidKeywordSize);
        }
        data.push(0);
        data.push(0);
        proof {
            assert(data@ =~= ztxt_prefix(self.keyword@));
        }
        match &self.optionally_compressed_text {
            OptCompressed::Compressed(v) => {
                data.extend_from_slice(v.as_slice());
            },
            OptCompressed::Uncompressed(s) => {
                let raw = match charset::latin1_encode(s.as_str()) {
                    Some(v) => v,
                    None => {
                        return Err(TextEncodingError::Unrepresentable);
                    },
                };
                let mut compressed = match zlib::zlib_compress(raw.as_slice()) {
                    Some(c) => c,
                    None => {
                        return Err(TextEncodingError::CompressionError);
                    },
                };
                data.append(&mut compressed);
            },
        }
        out.append(&mut data);
        Ok(())
    }
}

} // verus!
