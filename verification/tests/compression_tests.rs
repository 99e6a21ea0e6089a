use prism_mcp_rs::streaming::{content_encoding, CompressionType, StreamingCompressor};
use std::io::Read;

fn payload() -> Vec<u8> {
    b"{\"jsonrpc\":\"2.0\",\"method\":\"notifications/message\"}".iter().cycle().take(4096).cloned().collect()
}

fn compressed(t: CompressionType, data: &[u8]) -> Vec<u8> {
    match StreamingCompressor::new(t).compress_if_beneficial(data) {
        Ok(v) => v,
        Err(e) => panic!("{:?}", e),
    }
}

#[test]
fn small_payloads_are_sent_as_they_are() {
    let data = b"tiny".to_vec();
    for t in [CompressionType::Gzip, CompressionType::Brotli, CompressionType::Zstd, CompressionType::Uncompressed] {
        assert_eq!(compressed(t, &data), data);
    }
    assert_eq!(compressed(CompressionType::Uncompressed, &payload()), payload());
}

#[test]
fn gzip_output_decodes_to_the_payload() {
    let out = compressed(CompressionType::Gzip, &payload());
    assert!(out.len() < payload().len());
    let mut back = Vec::new();
    flate2::read::GzDecoder::new(&out[..]).read_to_end(&mut back).unwrap();
    assert_eq!(back, payload());
}

#[test]
fn brotli_output_decodes_to_the_payload() {
    let out = compressed(CompressionType::Brotli, &payload());
    assert!(out.len() < payload().len());
    let mut back = Vec::new();
    brotli::BrotliDecompress(&mut std::io::Cursor::new(&out), &mut back).unwrap();
    assert_eq!(back, payload());
}

#[test]
fn zstd_output_decodes_to_the_payload() {
    let out = compressed(CompressionType::Zstd, &payload());
    assert!(out.len() < payload().len());
    assert_eq!(zstd::stream::decode_all(&out[..]).unwrap(), payload());
}

#[test]
fn content_encodings() {
    assert_eq!(content_encoding(CompressionType::Gzip), "gzip");
    assert_eq!(content_encoding(CompressionType::Brotli), "br");
    assert_eq!(content_encoding(CompressionType::Zstd), "zstd");
    assert_eq!(content_encoding(CompressionType::Uncompressed), "identity");
}
