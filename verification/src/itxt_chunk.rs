//! The international-text record: a keyword, a language tag, a translated
//! keyword, and a UTF-8 text with a per-record compression flag.

use vstd::prelude::*;
use vstd::slice::slice_to_vec;
use vstd::utf8::decode_utf8;
use vstd::utf8::encode_utf8;
use vstd::utf8::valid_utf8;
use crate::charset;
use crate::charset::byte_chars;
use crate::charset::latin1_bytes;
use crate::charset::latin1_representable;
use crate::charset::ascii_bytes;
use crate::charset::ascii_representable;
use crate::compressed::OptCompressed;
use crate::encodable::EncodableTextChunk;
use crate::errors::TextDecodingError;
use crate::errors::TextEncodingError;
use crate::zlib;
use crate::zlib::deflate_of;
use crate::zlib::inflate_of;

verus! {

/// The leading bytes of an international-text chunk payload: the Latin-1
/// keyword, a null separator, the compression flag byte, the compression
/// method byte, the ASCII language tag, a null separator, the UTF-8
/// translated keyword, and a null separator. The text bytes follow,
/// compressed exactly when the flag byte is 255.
pub open spec fn itxt_prefix(
    keyword: Seq<char>,
    compressed: bool,
    language_tag: Seq<char>,
    translated_keyword: Seq<char>,
) -> Seq<u8> {
    latin1_bytes(keyword) + seq![0u8] + seq![(if compressed { 255u8 } else { 0u8 }), 0u8]
        + latin1_bytes(language_tag) + seq![0u8] + encode_utf8(translated_keyword) + seq![0u8]
}

/// Round trip for international-text records: every field that `encode`
/// lays out in the payload, read back the way `decode` reads it, gives the
/// original field. The Latin-1 keyword and the ASCII language tag decode
/// back to themselves, and the UTF-8 fields are valid UTF-8 on the wire and
/// decode back to themselves; for compressed text the bytes decompress to
/// the UTF-8 bytes of the text first, by the contracts of `compress_text`
/// and `encode`.
pub proof fn lemma_itxt_round_trip(
    keyword: Seq<char>,
    language_tag: Seq<char>,
    translated_keyword: Seq<char>,
    text: Seq<char>,
)
    requires
        latin1_representable(keyword),
        1 <= keyword.len() <= 79,
        ascii_representable(language_tag),
    ensures
        byte_chars(latin1_bytes(keyword)) == keyword,
        1 <= latin1_bytes(keyword).len() <= 79,
        ascii_bytes(latin1_bytes(language_tag)),
        byte_chars(latin1_bytes(language_tag)) == language_tag,
        valid_utf8(encode_utf8(translated_keyword)),
        decode_utf8(encode_utf8(translated_keyword)) == translated_keyword,
        valid_utf8(encode_utf8(text)),
        decode_utf8(encode_utf8(text)) == text,
{
    charset::lemma_latin1_round_trip(keyword);
    charset::lemma_ascii_latin1(language_tag);
    charset::lemma_latin1_round_trip(language_tag);
    vstd::utf8::encode_utf8_valid_utf8(translated_keyword);
    vstd::utf8::encode_utf8_decode_utf8(translated_keyword);
    vstd::utf8::encode_utf8_valid_utf8(text);
    vstd::utf8::encode_utf8_decode_utf8(text);
}

/// Decompressing and then recompressing an international-text record keeps
/// the text: the text decoded from valid UTF-8 decompressed bytes encodes
/// back to exactly those bytes, so the recompressed stream holds the same
/// text as the one decompressed.
pub proof fn lemma_itxt_decompress_compress(b: Seq<u8>)
    requires
        valid_utf8(b),
    ensures
        encode_utf8(decode_utf8(b)) == b,
{
    vstd::utf8::decode_utf8_encode_utf8(b);
}

/// An international-text record. The `compressed` flag is authoritative for
/// the wire form of the text, independent of which form happens to be held
/// in memory.
#[derive(Clone, Debug, PartialEq, Eq)]
pub struct ITXtChunk {
    /// Keyword of the record, 1 to 79 bytes when encoded as Latin-1.
    pub keyword: String,
    /// Whether the text is (or is to be) compressed on the wire.
    pub compressed: bool,
    /// Hyphen-separated list of language codes, 7-bit ASCII, possibly empty.
    pub language_tag: String,
    /// The keyword translated to the tagged language, UTF-8, possibly empty.
    pub translated_keyword: String,
    /// Text of the record, in compressed or decoded form.
    pub optionally_compressed_text: OptCompressed,
}

impl Default for ITXtChunk {
    /// A placeholder record: non-empty keyword, no compression, and all
    /// other fields empty. Callers are expected to overwrite the fields.
    fn default() -> (r: Self)
        ensures
            r.keyword@ == "Default keyword"@,
            !r.compressed,
            r.language_tag@.len() == 0,
            r.translated_keyword@.len() == 0,
            r.optionally_compressed_text matches OptCompressed::Uncompressed(s) && s@.len() == 0,
    {
        Self {
            keyword: "Default keyword".to_owned(),
            compressed: false,
            language_tag: String::new(),
            translated_keyword: String::new(),
            optionally_compressed_text: OptCompressed::Uncompressed(String::new()),
        }
    }
}

impl ITXtChunk {
    /// Constructs an international-text record from a keyword and a decoded
    /// text, leaving every other field at its default.
    pub fn new(keyword: &str, text: &str) -> (r: Self)
        ensures
            r.keyword@ == keyword@,
            !r.compressed,
            r.language_tag@.len() == 0,
            r.translated_keyword@.len() == 0,
            r.optionally_compressed_text matches OptCompressed::Uncompressed(s) && s@ == text@,
    {
        Self {
            keyword: keyword.to_owned(),
            optionally_compressed_text: OptCompressed::Uncompressed(text.to_owned()),
            ..Default::default()
        }
    }

    /// Decodes the pre-sliced fields of an international-text chunk payload.
    /// The compression flag byte must be 0 or 255; when it is 255 the
    /// method byte must be 0 and the text bytes are stored compressed as
    /// they stand, and when it is 0 the text bytes are decoded as UTF-8 at
    /// once.
    pub fn decode(
        keyword_slice: &[u8],
        compression_flag: u8,
        compression_method: u8,
        language_tag_slice: &[u8],
        translated_keyword_slice: &[u8],
        text_slice: &[u8],
    ) -> (r: Result<Self, TextDecodingError>)
        ensures
            keyword_slice@.len() == 0 || keyword_slice@.len() > 79 ==> r == Err::<
                Self,
                TextDecodingError,
            >(TextDecodingError::InvalidKeywordSize),
            1 <= keyword_slice@.len() <= 79 && !(compression_flag == 0 || compression_flag == 255)
                ==> r == Err::<Self, TextDecodingError>(TextDecodingError::InvalidCompressionFlag),
            1 <= keyword_slice@.len() <= 79 && compression_flag == 255 && compression_method != 0
                ==> r == Err::<Self, TextDecodingError>(
                TextDecodingError::InvalidCompressionMethod,
            ),
            1 <= keyword_slice@.len() <= 79 && (compression_flag == 0 || (compression_flag == 255
                && compression_method == 0)) ==> {
                &&& !ascii_bytes(language_tag_slice@) ==> r == Err::<Self, TextDecodingError>(
                    TextDecodingError::Unrepresentable,
                )
                &&& ascii_bytes(language_tag_slice@) && !valid_utf8(translated_keyword_slice@)
                    ==> r == Err::<Self, TextDecodingError>(TextDecodingError::Unrepresentable)
                &&& ascii_bytes(language_tag_slice@) && valid_utf8(translated_keyword_slice@)
                    ==> {
                    &&& compression_flag == 0 && !valid_utf8(text_slice@) ==> r == Err::<
                        Self,
                        TextDecodingError,
                    >(TextDecodingError::Unrepresentable)
                    &&& compression_flag == 0 && valid_utf8(text_slice@) ==> {
                        &&& r is Ok
                        &&& r->Ok_0.keyword@ == byte_chars(keyword_slice@)
                        &&& !r->Ok_0.compressed
                        &&& r->Ok_0.language_tag@ == byte_chars(language_tag_slice@)
                        &&& r->Ok_0.translated_keyword@ == decode_utf8(translated_keyword_slice@)
                        &&& r->Ok_0.optionally_compressed_text
                            matches OptCompressed::Uncompressed(s) && s@ == decode_utf8(
                            text_slice@,
                        )
                    }
                    &&& compression_flag == 255 ==> {
                        &&& r is Ok
                        &&& r->Ok_0.keyword@ == byte_chars(keyword_slice@)
                        &&& r->Ok_0.compressed
                        &&& r->Ok_0.language_tag@ == byte_chars(language_tag_slice@)
                        &&& r->Ok_0.translated_keyword@ == decode_utf8(translated_keyword_slice@)
                        &&& r->Ok_0.optionally_compressed_text matches OptCompressed::Compressed(
                            v,
                        ) && v@ == text_slice@
                    }
                }
            },
    {
        if keyword_slice.len() == 0 || keyword_slice.len() > 79 {
            return Err(TextDecodingError::InvalidKeywordSize);
        }
        let keyword = charset::latin1_decode(keyword_slice);
        let compressed: bool = match compression_flag {
            0 => false,
            255 => true,
            _ => {
                return Err(TextDecodingError::InvalidCompressionFlag);
            },
        };
        if compressed && compression_method != 0 {
            return Err(TextDecodingError::InvalidCompressionMethod);
        }
        let language_tag = match charset::ascii_decode(language_tag_slice) {
            Some(s) => s,
            None => {
                return Err(TextDecodingError::Unrepresentable);
            },
        };
        let translated_keyword = match charset::utf8_decode(slice_to_vec(translated_keyword_slice)) {
            Some(s) => s,
            None => {
                return Err(TextDecodingError::Unrepresentable);
            },
        };
        proof {
            vstd::utf8::encode_utf8_decode_utf8(translated_keyword@);
        }
        let optionally_compressed_text = if compressed {
            OptCompressed::Compressed(slice_to_vec(text_slice))
        } else {
            match charset::utf8_decode(slice_to_vec(text_slice)) {
                Some(s) => {
                    proof {
                        vstd::utf8::encode_utf8_decode_utf8(s@);
                    }
                    OptCompressed::Uncompressed(s)
                },
                None => {
                    return Err(TextDecodingError::Unrepresentable);
                },
            }
        };
        Ok(Self { keyword, compressed, language_tag, translated_keyword, optionally_compressed_text })
    }

    /// Decompresses the text in place. A record already holding decoded text
    /// is left as it is; corrupt compressed bytes, or decompressed bytes
    /// that are not valid UTF-8, fail the call and leave the record
    /// unchanged. The compression flag is not touched.
    pub fn decompress_text(&mut self) -> (r: Result<(), TextDecodingError>)
        ensures
            old(self).optionally_compressed_text matches OptCompressed::Uncompressed(_) ==> r
                is Ok && *final(self) == *old(self),
            old(self).optionally_compressed_text matches OptCompressed::Compressed(v) ==> {
                &&& inflate_of(v@) is None ==> r == Err::<(), TextDecodingError>(
                    TextDecodingError::InflationError,
                ) && *final(self) == *old(self)
                &&& inflate_of(v@) matches Some(b) ==> {
                    &&& !valid_utf8(b) ==> r == Err::<(), TextDecodingError>(
                        TextDecodingError::Unrepresentable,
                    ) && *final(self) == *old(self)
                    &&& valid_utf8(b) ==> {
                        &&& r is Ok
                        &&& final(self).keyword == old(self).keyword
                        &&& final(self).compressed == old(self).compressed
                        &&& final(self).language_tag == old(self).language_tag
                        &&& final(self).translated_keyword == old(self).translated_keyword
                        &&& final(self).optionally_compressed_text
                            matches OptCompressed::Uncompressed(s) && s@ == decode_utf8(b)
                    }
                }
            },
    {
        match &self.optionally_compressed_text {
            OptCompressed::Compressed(v) => {
                match zlib::zlib_inflate(v.as_slice()) {
                    None => Err(TextDecodingError::InflationError),
                    Some(raw) => {
                        match charset::utf8_decode(raw) {
                            Some(s) => {
                                proof {
                                    vstd::utf8::encode_utf8_decode_utf8(s@);
                                }
                                self.optionally_compressed_text = OptCompressed::Uncompressed(s);
                                Ok(())
                            },
                            None => Err(TextDecodingError::Unrepresentable),
                        }
                    },
                }
            },
            OptCompressed::Uncompressed(_) => Ok(()),
        }
    }

    /// Returns the decoded text without mutating the stored state,
    /// decompressing on the fly when the record holds compressed bytes.
    pub fn get_text(&self) -> (r: Result<String, TextDecodingError>)
        ensures
            self.optionally_compressed_text matches OptCompressed::Uncompressed(s) ==> r is Ok
                && r->Ok_0@ == s@,
            self.optionally_compressed_text matches OptCompressed::Compressed(v) ==> {
                &&& inflate_of(v@) is None ==> r == Err::<String, TextDecodingError>(
                    TextDecodingError::InflationError,
                )
                &&& inflate_of(v@) matches Some(b) ==> {
                    &&& !valid_utf8(b) ==> r == Err::<String, TextDecodingError>(
                        TextDecodingError::Unrepresentable,
                    )
                    &&& valid_utf8(b) ==> r is Ok && r->Ok_0@ == decode_utf8(b)
                }
            },
    {
        match &self.optionally_compressed_text {
            OptCompressed::Compressed(v) => {
                match zlib::zlib_inflate(v.as_slice()) {
                    None => Err(TextDecodingError::InflationError),
                    Some(raw) => {
                        match charset::utf8_decode(raw) {
                            Some(s) => {
                                proof {
                                    vstd::utf8::encode_utf8_decode_utf8(s@);
                                }
                                Ok(s)
                            },
                            None => Err(TextDecodingError::Unrepresentable),
                        }
                    },
                }
            },
            OptCompressed::Uncompressed(s) => Ok(s.clone()),
        }
    }

    /// Compresses the text in place. A record already holding compressed
    /// bytes is left as it is. On success the new compressed bytes are
    /// exactly what decompresses back to the text's UTF-8 bytes. The
    /// compression flag is not touched.
    pub fn compress_text(&mut self) -> (r: Result<(), TextEncodingError>)
        ensures
            old(self).optionally_compressed_text matches OptCompressed::Compressed(_) ==> r
                is Ok && *final(self) == *old(self),
            old(self).optionally_compressed_text matches OptCompressed::Uncompressed(s) ==> {
                &&& r is Err ==> r == Err::<(), TextEncodingError>(
                    TextEncodingError::CompressionError,
                ) && *final(self) == *old(self)
                &&& r is Ok ==> {
                    &&& final(self).keyword == old(self).keyword
                    &&& final(self).compressed == old(self).compressed
                    &&& final(self).language_tag == old(self).language_tag
                    &&& final(self).translated_keyword == old(self).translated_keyword
                    &&& final(self).optionally_compressed_text matches OptCompressed::Compressed(
                        v,
                    ) && v@ == deflate_of(encode_utf8(s@)) && inflate_of(v@) == Some(
                        encode_utf8(s@),
                    )
                }
            },
    {
        match &self.optionally_compressed_text {
            OptCompressed::Uncompressed(s) => {
                match zlib::zlib_compress(s.as_str().as_bytes()) {
                    None => Err(TextEncodingError::CompressionError),
                    Some(compressed) => {
                        self.optionally_compressed_text = OptCompressed::Compressed(compressed);
                        Ok(())
                    },
                }
            },
            OptCompressed::Compressed(_) => Ok(()),
        }
    }
}

impl EncodableTextChunk for ITXtChunk {
    /// Serialises the record to its wire payload, appended to `out`. The
    /// `compressed` flag drives the wire form of the text regardless of the
    /// form held in memory: decoded text is compressed on demand when the
    /// flag is set, and compressed bytes are decompressed on demand when it
    /// is not. On failure `out` is untouched.
    fn encode(&self, out: &mut Vec<u8>) -> (r: Result<(), TextEncodingError>)
        ensures
            !latin1_representable(self.keyword@) ==> r == Err::<(), TextEncodingError>(
                TextEncodingError::Unrepresentable,
            ),
            latin1_representable(self.keyword@) && !(1 <= self.keyword@.len() <= 79) ==> r
                == Err::<(), TextEncodingError>(TextEncodingError::InvalidKeywordSize),
            latin1_representable(self.keyword@) && 1 <= self.keyword@.len() <= 79
                && !ascii_representable(self.language_tag@) ==> r == Err::<(), TextEncodingError>(
                TextEncodingError::Unrepresentable,
            ),
            latin1_representable(self.keyword@) && 1 <= self.keyword@.len() <= 79
                && ascii_representable(self.language_tag@) ==> {
                &&& self.compressed ==> {
                    &&& self.optionally_compressed_text matches OptCompressed::Compressed(v)
                        ==> r is Ok && final(out)@ == old(out)@ + itxt_prefix(
                        self.keyword@,
                        self.compressed,
                        self.language_tag@,
                        self.translated_keyword@,
                    ) + v@
                    &&& self.optionally_compressed_text matches OptCompressed::Uncompressed(s)
                        ==> {
                        &&& r is Err ==> r == Err::<(), TextEncodingError>(
                            TextEncodingError::CompressionError,
                        )
                        &&& r is Ok ==> final(out)@ == old(out)@ + itxt_prefix(
                            self.keyword@,
                            self.compressed,
                            self.language_tag@,
                            self.translated_keyword@,
                        ) + deflate_of(encode_utf8(s@))
                    }
                }
                &&& !self.compressed ==> {
                    &&& self.optionally_compressed_text matches OptCompressed::Uncompressed(s)
                        ==> r is Ok && final(out)@ == old(out)@ + itxt_prefix(
                        self.keyword@,
                        self.compressed,
                        self.language_tag@,
                        self.translated_keyword@,
                    ) + encode_utf8(s@)
                    &&& self.optionally_compressed_text matches OptCompressed::Compressed(v)
                        ==> {
                        &&& inflate_of(v@) is None ==> r == Err::<(), TextEncodingError>(
                            TextEncodingError::CompressionError,
                        )
                        &&& inflate_of(v@) matches Some(b) ==> r is Ok && final(out)@ == old(
                            out,
                        )@ + itxt_prefix(
                            self.keyword@,
                            self.compressed,
                            self.language_tag@,
                            self.translated_keyword@,
                        ) + b
                    }
                }
            },
    {
        let mut data = match charset::latin1_encode(self.keyword.as_str()) {
            Some(v) => v,
            None => {
                return Err(TextEncodingError::Unrepresentable);
            },
        };
        if data.len() == 0 || data.len() > 79 {
            return Err(TextEncodingError::InvalidKeywordSize);
        }
        data.push(0);
        if self.compressed {
            data.push(255);
        } else {
            data.push(0);
        }
        data.push(0);
        let mut lang = match charset::ascii_encode(self.language_tag.as_str()) {
            Some(v) => v,
            None => {
                return Err(TextEncodingError::Unrepresentable);
            },
        };
        data.append(&mut lang);
        data.push(0);
        data.extend_from_slice(self.translated_keyword.as_str().as_bytes());
        data.push(0);
        proof {
            assert(data@ =~= itxt_prefix(
                self.keyword@,
                self.compressed,
                self.language_tag@,
                self.translated_keyword@,
            ));
        }
        match &self.optionally_compressed_text {
            OptCompressed::Compressed(v) => {
                if self.compressed {
                    data.extend_from_slice(v.as_slice());
                } else {
                    let mut raw = match zlib::zlib_inflate(v.as_slice()) {
                        Some(raw) => raw,
                        None => {
                            return Err(TextEncodingError::CompressionError);
                        },
                    };
                    data.append(&mut raw);
                }
            },
            OptCompressed::Uncompressed(s) => {
                if self.compressed {
                    let mut compressed = match zlib::zlib_compress(s.as_str().as_bytes()) {
                        Some(c) => c,
                        None => {
                            return Err(TextEncodingError::CompressionError);
                        },
                    };
                    data.append(&mut compressed);
                } else {
                    data.extend_from_slice(s.as_str().as_bytes());
                }
            },
        }
        out.append(&mut data);
        Ok(())
    }
}

} // verus!
