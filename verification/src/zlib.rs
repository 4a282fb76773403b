//! Compression boundary: the zlib stream format, produced by the `deflate`
//! crate and consumed by `miniz_oxide`, behind trusted wrappers.
//!
//! Both primitives are pure functions of their input bytes, so their results
//! are given names: `deflate_of` for the compressed stream this library
//! writes, and `inflate_of` for what decompression makes of a stream.

use vstd::prelude::*;
use deflate::write::ZlibEncoder;
use deflate::Compression;
use miniz_oxide::inflate::decompress_to_vec_zlib;
use std::io::Write;

verus! {

pub uninterp spec fn deflate_of(b: Seq<u8>) -> Seq<u8>;

pub uninterp spec fn inflate_of(b: Seq<u8>) -> Option<Seq<u8>>;

/// Relies on miniz_oxide's `decompress_to_vec_zlib`: a pure function of the
/// input bytes that yields the decompressed stream, or fails on input that is
/// not a well-formed zlib stream.
#[verifier::external_body]
pub(crate) fn zlib_inflate(bytes: &[u8]) -> (r: Option<Vec<u8>>)
    ensures
        r is Some <==> inflate_of(bytes@) is Some,
        r is Some ==> Some(r->0@) == inflate_of(bytes@),
{
    decompress_to_vec_zlib(bytes).ok()
}

/// Relies on the `deflate` crate's `ZlibEncoder` at its fast compression
/// level: a pure function of the input bytes, whose output is a zlib stream
/// that miniz_oxide decompresses back to that input. The error path of the
/// encoder's writer interface is kept as an explicit failure, of which
/// nothing is promised.
#[verifier::external_body]
pub(crate) fn zlib_compress(bytes: &[u8]) -> (r: Option<Vec<u8>>)
    ensures
        r is Some ==> r->0@ == deflate_of(bytes@),
        r is Some ==> inflate_of(deflate_of(bytes@)) == Some(bytes@),
{
    let mut encoder = ZlibEncoder::new(Vec::new(), Compression::Fast);
    encoder.write_all(bytes).ok()?;
    encoder.finish().ok()
}

} // verus!
