//! Encoding and decoding of the three textual metadata chunk kinds of the PNG
//! container format: plain `tEXt`, compressed `zTXt`, and international
//! `iTXt` records.

pub mod charset;
pub mod compressed;
pub mod encodable;
pub mod errors;
pub mod itxt_chunk;
pub mod text_chunk;
pub mod ztxt_chunk;
pub mod zlib;

pub use compressed::OptCompressed;
pub use encodable::EncodableTextChunk;
pub use errors::TextDecodingError;
pub use errors::TextEncodingError;
pub use itxt_chunk::ITXtChunk;
pub use text_chunk::TEXtChunk;
pub use ztxt_chunk::ZTXtChunk;
