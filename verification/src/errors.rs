//! The two error taxonomies of the text-chunk codec, one per direction.

use vstd::prelude::*;

verus! {

/// Errors that can arise while decoding a text chunk payload.
#[derive(Clone, Copy, Debug, PartialEq, Eq, Structural)]
pub enum TextDecodingError {
    /// A field held bytes with no mapping in the field's character set.
    Unrepresentable,
    /// The keyword was empty or longer than 79 bytes.
    InvalidKeywordSize,
    /// A required null separator was missing from the payload.
    MissingNullSeparator,
    /// The compressed text could not be decompressed.
    InflationError,
    /// The compression method byte held an unspecified value.
    InvalidCompressionMethod,
    /// The compression flag byte of an international chunk was neither 0 nor 255.
    InvalidCompressionFlag,
    /// The compression flag byte was missing from the payload.
    MissingCompressionFlag,
}

/// Errors that can arise while encoding a text chunk to its wire form.
#[derive(Clone, Copy, Debug, PartialEq, Eq, Structural)]
pub enum TextEncodingError {
    /// A field held characters with no mapping in the field's character set.
    Unrepresentable,
    /// The keyword was empty or longer than 79 bytes.
    InvalidKeywordSize,
    /// The text could not be compressed.
    CompressionError,
}

} // verus!
