//! The common surface of the three encodable text chunk kinds.

use vstd::prelude::*;
use crate::errors::TextEncodingError;

verus! {

/// A text chunk that can serialise itself to its wire payload.
///
/// Each implementation appends a fully assembled payload to the sink, or
/// fails leaving the sink untouched; its inherent `encode` method states the
/// exact payload. The payload excludes the container's framing (type tag,
/// length prefix, checksum), which an outer layer adds around these bytes.
pub trait EncodableTextChunk {
    /// Appends the record's wire payload to `out`, or leaves `out` unchanged
    /// and reports why the record cannot be serialised.
    fn encode(&self, out: &mut Vec<u8>) -> (r: Result<(), TextEncodingError>)
        ensures
            r is Err ==> final(out)@ == old(out)@,
    ;
}

} // verus!
