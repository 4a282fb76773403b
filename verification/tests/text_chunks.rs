use png_text::EncodableTextChunk;
use png_text::OptCompressed;
use png_text::TEXtChunk;
use png_text::TextDecodingError;
use png_text::TextEncodingError;

#[test]
fn text_chunk_decode_scenario() {
    let r = TEXtChunk::decode(b"Comment", b"Hello").unwrap();
    assert_eq!(r.keyword, "Comment");
    assert_eq!(r.text, "Hello");
}

#[test]
fn text_chunk_encode_scenario() {
    let c = TEXtChunk::new("Comment", "Hello");
    let mut out = Vec::new();
    c.encode(&mut out).unwrap();
    assert_eq!(out, b"Comment\x00Hello".to_vec());
}

#[test]
fn text_chunk_latin1_byte_values() {
    let r = TEXtChunk::decode(b"k", &[0xE9, 0x41]).unwrap();
    assert_eq!(r.text, "\u{e9}A");
    let mut out = Vec::new();
    r.encode(&mut out).unwrap();
    assert_eq!(out, vec![b'k', 0, 0xE9, 0x41]);
}

#[test]
fn text_chunk_round_trip() {
    let c = TEXtChunk::new("Title", "caf\u{e9}");
    let mut out = Vec::new();
    c.encode(&mut out).unwrap();
    let sep = out.iter().position(|&b| b == 0).unwrap();
    let d = TEXtChunk::decode(&out[..sep], &out[sep + 1..]).unwrap();
    assert_eq!(d, c);
}

#[test]
fn text_chunk_empty_text_round_trip() {
    let c = TEXtChunk::new("k", "");
    let mut out = Vec::new();
    c.encode(&mut out).unwrap();
    assert_eq!(out, vec![b'k', 0]);
    let d = TEXtChunk::decode(b"k", b"").unwrap();
    assert_eq!(d, c);
}

#[test]
fn text_chunk_keyword_size_limits_decode() {
    assert!(matches!(
        TEXtChunk::decode(b"", b"x"),
        Err(TextDecodingError::InvalidKeywordSize)
    ));
    let long = [b'a'; 80];
    assert!(matches!(
        TEXtChunk::decode(&long, b"x"),
        Err(TextDecodingError::InvalidKeywordSize)
    ));
    let just_fits = [b'a'; 79];
    assert!(TEXtChunk::decode(&just_fits, b"x").is_ok());
}

#[test]
fn text_chunk_keyword_size_limits_encode() {
    let mut out = Vec::new();
    let empty = TEXtChunk::new("", "x");
    assert!(matches!(
        empty.encode(&mut out),
        Err(TextEncodingError::InvalidKeywordSize)
    ));
    assert!(out.is_empty());
    let long = TEXtChunk::new(&"a".repeat(80), "x");
    assert!(matches!(
        long.encode(&mut out),
        Err(TextEncodingError::InvalidKeywordSize)
    ));
    assert!(out.is_empty());
    let just_fits = TEXtChunk::new(&"a".repeat(79), "x");
    assert!(just_fits.encode(&mut out).is_ok());
}

#[test]
fn text_chunk_unrepresentable_keyword() {
    let mut out = Vec::new();
    let c = TEXtChunk::new("k\u{2713}", "x");
    assert!(matches!(
        c.encode(&mut out),
        Err(TextEncodingError::Unrepresentable)
    ));
    assert!(out.is_empty());
}

#[test]
fn text_chunk_unrepresentable_text() {
    let mut out = Vec::new();
    let c = TEXtChunk::new("k", "\u{2713}");
    assert!(matches!(
        c.encode(&mut out),
        Err(TextEncodingError::Unrepresentable)
    ));
    assert!(out.is_empty());
}

#[test]
fn opt_compressed_variants_are_distinct() {
    let compressed = OptCompressed::Compressed(vec![1, 2, 3]);
    let decoded = OptCompressed::Uncompressed("abc".to_string());
    assert_ne!(compressed, decoded);
    assert!(matches!(&compressed, OptCompressed::Compressed(v) if v == &vec![1, 2, 3]));
    assert!(matches!(&decoded, OptCompressed::Uncompressed(s) if s == "abc"));
}
