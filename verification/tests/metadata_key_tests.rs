use tower_grpc::metadata_encoding::{ends_with_bin, Ascii, Binary, ValueEncoding};
use tower_grpc::metadata_key::MetadataKey;

#[test]
fn key_from_bytes_is_lower_cased() {
    let k = MetadataKey::from_bytes(b"X-Custom-Header").unwrap();
    assert_eq!(k.as_str(), "x-custom-header");
}

#[test]
fn key_from_bytes_refuses_invalid_names() {
    assert!(MetadataKey::from_bytes(b"").is_err());
    assert!(MetadataKey::from_bytes(b"with space").is_err());
    assert!(MetadataKey::from_bytes(b"colon:").is_err());
}

#[test]
fn key_from_static_keeps_the_name() {
    let k = MetadataKey::from_static("grpc-timeout");
    assert_eq!(k.as_str(), "grpc-timeout");
    assert_eq!(k.duplicate().as_str(), "grpc-timeout");
}

#[test]
fn binary_keys_end_with_bin() {
    assert!(ends_with_bin("trace-bin"));
    assert!(!ends_with_bin("trace"));
    assert!(!ends_with_bin("bin"));
    assert!(Binary::is_valid_key("x-bin"));
    assert!(!Ascii::is_valid_key("x-bin"));
    assert!(Ascii::is_valid_key("x-text"));
}

#[test]
fn encodings_decode_to_the_same_bytes() {
    assert_eq!(&Ascii::decode(b"abc").unwrap()[..], b"abc");
    assert_eq!(&Binary::decode(b"\x00\x01").unwrap()[..], b"\x00\x01");
    assert!(Ascii::is_empty(b""));
    assert!(!Binary::is_empty(b"x"));
}

#[test]
fn key_from_str_is_lower_cased() {
    let k = MetadataKey::from_str("Content-Type").unwrap();
    assert_eq!(k.as_str(), "content-type");
    assert!(MetadataKey::from_str("a b").is_err());
}

#[test]
fn key_equals_str_ignoring_case() {
    let content_length = MetadataKey::from_static("content-length");
    assert!(content_length.eq_str("content-length"));
    assert!(content_length.eq_str("Content-Length"));
    assert!(!content_length.eq_str("content length"));
    assert!(!content_length.eq_str("content-lengt"));
}
