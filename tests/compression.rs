use kaserve::compression::{
    compress, compress_if_needed, compression_choice, finish_compression, is_cacheable, should_compress,
    CompressionType,
};
use std::io::Read;

fn text(n: usize) -> Vec<u8> {
    (0..n).map(|i| b"abcdefgh"[i % 8]).collect()
}

#[test]
fn small_payload_is_not_compressed() {
    let data = text(1023);
    let (out, enc) = compress_if_needed(&data, "text/plain", "gzip, br");
    assert_eq!(out, data);
    assert_eq!(enc, None);
    assert_eq!(compression_choice(true, 1023, "text/plain", Some("gzip, br")), CompressionType::Identity);
}

#[test]
fn brotli_is_preferred() {
    let data = text(2000);
    assert_eq!(compression_choice(true, 2000, "text/plain", Some("br, gzip")), CompressionType::Brotli);
    let (out, enc) = compress_if_needed(&data, "text/plain", "br, gzip");
    assert_eq!(enc, Some("br"));
    assert_ne!(out, data);
    let mut decoded = Vec::new();
    brotli::Decompressor::new(out.as_slice(), 4096).read_to_end(&mut decoded).unwrap();
    assert_eq!(decoded, data);
}

#[test]
fn gzip_then_deflate() {
    let data = text(1024);
    let (out, enc) = compress_if_needed(&data, "application/json", "GZIP, deflate");
    assert_eq!(enc, Some("gzip"));
    let mut decoded = Vec::new();
    flate2::read::GzDecoder::new(out.as_slice()).read_to_end(&mut decoded).unwrap();
    assert_eq!(decoded, data);
    let (out, enc) = compress_if_needed(&data, "application/json", "deflate");
    assert_eq!(enc, Some("deflate"));
    let mut decoded = Vec::new();
    flate2::read::DeflateDecoder::new(out.as_slice()).read_to_end(&mut decoded).unwrap();
    assert_eq!(decoded, data);
}

#[test]
fn uncompressible_type_or_unknown_encoding_is_sent_as_is() {
    let data = text(4096);
    assert_eq!(compress_if_needed(&data, "image/png", "br"), (data.clone(), None));
    assert_eq!(compress_if_needed(&data, "text/html", "identity"), (data.clone(), None));
    assert_eq!(compression_choice(false, 4096, "text/html", Some("br")), CompressionType::Identity);
    assert_eq!(compression_choice(true, 4096, "text/html", None), CompressionType::Identity);
}

#[test]
fn header_parsing() {
    assert_eq!(CompressionType::from_accept_encoding(None), CompressionType::Identity);
    assert_eq!(CompressionType::from_accept_encoding(Some("gzip, deflate, BR")), CompressionType::Brotli);
    assert_eq!(CompressionType::from_accept_encoding(Some("x-gzip")), CompressionType::Gzip);
    assert_eq!(CompressionType::Brotli.content_encoding(), Some("br"));
    assert_eq!(CompressionType::Identity.content_encoding(), None);
}

#[test]
fn failed_encoder_falls_back() {
    let data = text(2000);
    assert_eq!(finish_compression(&data, CompressionType::Gzip, None), (data.clone(), None));
    assert_eq!(finish_compression(&data, CompressionType::Gzip, Some(vec![1, 2])), (vec![1, 2], Some("gzip")));
    assert_eq!(compress(&data, CompressionType::Identity), Some(data.clone()));
}

#[test]
fn type_predicates() {
    for t in ["text/html", "application/json", "application/javascript", "application/xml", "image/svg+xml", "application/wasm"] {
        assert!(should_compress(t), "{}", t);
    }
    assert!(!should_compress("image/png"));
    for t in ["text/css", "text/javascript", "application/javascript", "image/png", "font/woff2", "application/font-woff"] {
        assert!(is_cacheable(t), "{}", t);
    }
    assert!(!is_cacheable("text/html"));
}
