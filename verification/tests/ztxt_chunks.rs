use png_text::EncodableTextChunk;
use png_text::OptCompressed;
use png_text::TextDecodingError;
use png_text::TextEncodingError;
use png_text::ZTXtChunk;

fn compressed_bytes(z: &ZTXtChunk) -> Vec<u8> {
    match &z.optionally_compressed_text {
        OptCompressed::Compressed(v) => v.clone(),
        OptCompressed::Uncompressed(_) => panic!("expected compressed state"),
    }
}

#[test]
fn ztxt_decode_stores_bytes_verbatim() {
    let z = ZTXtChunk::decode(b"Comment", 0, &[1, 2, 3]).unwrap();
    assert_eq!(z.keyword, "Comment");
    assert_eq!(compressed_bytes(&z), vec![1, 2, 3]);
}

#[test]
fn ztxt_keyword_size_limits() {
    assert!(matches!(
        ZTXtChunk::decode(b"", 0, b""),
        Err(TextDecodingError::InvalidKeywordSize)
    ));
    let long = [b'a'; 80];
    assert!(matches!(
        ZTXtChunk::decode(&long, 0, b""),
        Err(TextDecodingError::InvalidKeywordSize)
    ));
}

#[test]
fn ztxt_invalid_compression_method() {
    assert!(matches!(
        ZTXtChunk::decode(b"k", 1, b""),
        Err(TextDecodingError::InvalidCompressionMethod)
    ));
    assert!(matches!(
        ZTXtChunk::decode(b"k", 255, b""),
        Err(TextDecodingError::InvalidCompressionMethod)
    ));
}

#[test]
fn ztxt_malformed_compressed_bytes() {
    let mut z = ZTXtChunk::decode(b"k", 0, &[9, 9, 9, 9]).unwrap();
    assert!(matches!(
        z.get_text(),
        Err(TextDecodingError::InflationError)
    ));
    assert!(matches!(
        z.decompress_text(),
        Err(TextDecodingError::InflationError)
    ));
    assert_eq!(compressed_bytes(&z), vec![9, 9, 9, 9]);
}

#[test]
fn ztxt_compress_decompress_round_trip() {
    let mut z = ZTXtChunk::new("Comment", "A zTXt chunk after the image data.");
    z.compress_text().unwrap();
    assert!(matches!(
        z.optionally_compressed_text,
        OptCompressed::Compressed(_)
    ));
    let frozen = z.clone();
    z.compress_text().unwrap();
    assert_eq!(z, frozen);
    assert_eq!(z.get_text().unwrap(), "A zTXt chunk after the image data.");
    assert_eq!(z, frozen);
    z.decompress_text().unwrap();
    assert_eq!(
        z.optionally_compressed_text,
        OptCompressed::Uncompressed("A zTXt chunk after the image data.".to_string())
    );
    let thawed = z.clone();
    z.decompress_text().unwrap();
    assert_eq!(z, thawed);
}

#[test]
fn ztxt_decompress_then_compress_keeps_text() {
    let mut source = ZTXtChunk::new("k", "text to carry across");
    source.compress_text().unwrap();
    let mut z = ZTXtChunk::decode(b"k", 0, &compressed_bytes(&source)).unwrap();
    z.decompress_text().unwrap();
    z.compress_text().unwrap();
    assert_eq!(z.get_text().unwrap(), "text to carry across");
}

#[test]
fn ztxt_compress_unrepresentable() {
    let mut z = ZTXtChunk::new("k", "\u{2713}");
    assert!(matches!(
        z.compress_text(),
        Err(TextEncodingError::Unrepresentable)
    ));
    assert_eq!(
        z.optionally_compressed_text,
        OptCompressed::Uncompressed("\u{2713}".to_string())
    );
}

#[test]
fn ztxt_encode_from_either_state_matches() {
    let mut z1 = ZTXtChunk::new("k", "hello hello hello hello");
    z1.compress_text().unwrap();
    let mut e1 = Vec::new();
    z1.encode(&mut e1).unwrap();
    let compressed = compressed_bytes(&z1);
    let z2 = ZTXtChunk::decode(b"k", 0, &compressed).unwrap();
    let mut e2 = Vec::new();
    z2.encode(&mut e2).unwrap();
    assert_eq!(e1, e2);
    let z3 = ZTXtChunk::new("k", "hello hello hello hello");
    let mut e3 = Vec::new();
    z3.encode(&mut e3).unwrap();
    assert_eq!(e1, e3);
    assert_eq!(&e1[..3], &[b'k', 0, 0]);
    assert_eq!(&e1[3..], &compressed[..]);
}

#[test]
fn ztxt_encode_round_trip() {
    let z = ZTXtChunk::new("Comment", "compressed on the way out");
    let mut payload = Vec::new();
    z.encode(&mut payload).unwrap();
    let sep = payload.iter().position(|&b| b == 0).unwrap();
    let method = payload[sep + 1];
    let mut d = ZTXtChunk::decode(&payload[..sep], method, &payload[sep + 2..]).unwrap();
    d.decompress_text().unwrap();
    assert_eq!(d.keyword, "Comment");
    assert_eq!(d.get_text().unwrap(), "compressed on the way out");
}

#[test]
fn ztxt_encode_keyword_errors_leave_sink_untouched() {
    let mut out = vec![42u8];
    let empty = ZTXtChunk::new("", "x");
    assert!(matches!(
        empty.encode(&mut out),
        Err(TextEncodingError::InvalidKeywordSize)
    ));
    let bad = ZTXtChunk::new("k\u{100}", "x");
    assert!(matches!(
        bad.encode(&mut out),
        Err(TextEncodingError::Unrepresentable)
    ));
    let bad_text = ZTXtChunk::new("k", "\u{100}");
    assert!(matches!(
        bad_text.encode(&mut out),
        Err(TextEncodingError::Unrepresentable)
    ));
    assert_eq!(out, vec![42u8]);
}
