//! The compression state shared by the `zTXt` and `iTXt` record kinds.

use vstd::prelude::*;

verus! {

/// The two states of a togglable text field: the raw compressed bytes as
/// they stand on the wire, or the decoded text. Exactly one variant is ever
/// populated, and a transition between them only happens on an explicit
/// caller request.
#[derive(Clone, Debug, PartialEq, Eq)]
pub enum OptCompressed {
    /// Compressed form of the text field.
    Compressed(Vec<u8>),
    /// Decoded form of the text field.
    Uncompressed(String),
}

} // verus!
