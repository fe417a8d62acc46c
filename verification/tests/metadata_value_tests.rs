use bytes::Bytes;
use tower_grpc::metadata_key::MetadataKey;
use tower_grpc::metadata_map::MetadataMap;
use tower_grpc::metadata_value::MetadataValue;

#[test]
fn it_can_insert_metadata_key_as_metadata_value() {
    let mut _map = MetadataMap::new();
}

#[test]
fn test_debug() {
    let cases = &[
        ("hello", "\"hello\""),
        ("hello \"world\"", "\"hello \\\"world\\\"\""),
        ("\u{7FFF}hello", "\"\\xe7\\xbf\\xbfhello\""),
    ];

    for &(value, expected) in cases {
        let val = MetadataValue::from_bytes(value.as_bytes()).unwrap();
        let actual = val.debug_string();
        assert_eq!(expected, actual);
    }

    let mut sensitive = MetadataValue::from_static("password");
    sensitive.set_sensitive(true);
    assert_eq!("Sensitive", sensitive.debug_string());
}

#[test]
fn value_from_str_keeps_the_bytes() {
    let v = MetadataValue::from_str("hello world").unwrap();
    assert_eq!(v.as_bytes(), b"hello world");
    assert_eq!(v.len(), 11);
    assert!(!v.is_empty());
    assert!(!v.is_sensitive());
}

#[test]
fn value_from_str_refuses_control_characters() {
    assert!(MetadataValue::from_str("bad\nvalue").is_err());
    assert!(MetadataValue::from_str("tab\tis not visible").is_err());
    assert!(MetadataValue::from_str("caf\u{e9}").is_err());
    assert!(MetadataValue::from_str("visible ascii ~").is_ok());
}

#[test]
fn value_bytes_and_to_str_refuse_tab() {
    assert!(MetadataValue::from_bytes(b"a\tb").is_err());
    assert!(MetadataValue::from_bytes(b"hello\xfa").is_ok());
    assert!(MetadataValue::from_bytes(b"hello\xfa").unwrap().to_str().is_err());
    assert!(MetadataValue::from_shared(bytes::Bytes::from(&b"a\tb"[..])).is_err());
    assert_eq!(MetadataValue::from_static("hello").to_str().unwrap(), "hello");
    let tabbed = MetadataValue::from_header_value(http::header::HeaderValue::from_static("a\tb"));
    assert!(tabbed.to_str().is_err());
}

#[test]
fn value_from_bytes_refuses_del() {
    assert!(MetadataValue::from_bytes(&[104, 127, 105]).is_err());
    assert!(MetadataValue::from_bytes(&[104, 200, 105]).is_ok());
}

#[test]
fn value_to_str_of_opaque_bytes_fails() {
    let v = MetadataValue::from_bytes(&[104, 200, 105]).unwrap();
    assert!(v.to_str().is_err());
    let w = MetadataValue::from_bytes(b"visible").unwrap();
    assert_eq!(w.to_str().unwrap(), "visible");
}

#[test]
fn value_from_name_holds_the_name() {
    let key = MetadataKey::from_bytes(b"Hello-World").unwrap();
    let v = MetadataValue::from_name(key);
    assert_eq!(v.as_bytes(), b"hello-world");
}

#[test]
fn value_from_shared_checks_the_bytes() {
    let v = MetadataValue::from_shared(Bytes::from(&b"shared"[..])).unwrap();
    assert_eq!(v.as_bytes(), b"shared");
    assert!(MetadataValue::from_shared(Bytes::from(&b"a\x00b"[..])).is_err());
}

#[test]
fn value_sensitivity_keeps_the_bytes() {
    let mut v = MetadataValue::from_static("secret");
    v.set_sensitive(true);
    assert!(v.is_sensitive());
    assert_eq!(v.as_bytes(), b"secret");
    let d = v.duplicate();
    assert!(d.is_sensitive());
    assert_eq!(d.as_bytes(), b"secret");
    assert_eq!(v.to_header_value().as_bytes(), b"secret");
}

#[test]
fn empty_value_is_empty() {
    let v = MetadataValue::from_static("");
    assert!(v.is_empty());
    assert_eq!(v.len(), 0);
    assert_eq!(v.debug_string(), "\"\"");
}

#[test]
fn values_compare_by_bytes() {
    let a = MetadataValue::from_static("same");
    let mut b = MetadataValue::from_str("same").unwrap();
    b.set_sensitive(true);
    assert!(a == b);
    assert!(a != MetadataValue::from_static("other"));
}

#[test]
fn visible_string_round_trips() {
    let s = "Hello, World! ~";
    let v = MetadataValue::from_str(s).unwrap();
    assert_eq!(v.to_str().unwrap(), s);
}

#[test]
fn values_from_integers() {
    assert_eq!(MetadataValue::from_u16(55).as_bytes(), b"55");
    assert_eq!(MetadataValue::from_u16(u16::MAX).as_bytes(), u16::MAX.to_string().as_bytes());
    assert_eq!(MetadataValue::from_i16(i16::MIN).as_bytes(), i16::MIN.to_string().as_bytes());
    assert_eq!(MetadataValue::from_u32(u32::MAX).as_bytes(), u32::MAX.to_string().as_bytes());
    assert_eq!(MetadataValue::from_i32(-7).as_bytes(), b"-7");
    assert_eq!(MetadataValue::from_u64(u64::MAX).as_bytes(), u64::MAX.to_string().as_bytes());
    assert_eq!(MetadataValue::from_i64(i64::MIN).as_bytes(), i64::MIN.to_string().as_bytes());
    assert_eq!(MetadataValue::from_u64(0).as_bytes(), b"0");
    assert!(!MetadataValue::from_u64(1).is_sensitive());
}

#[test]
fn debug_shows_a_tab_as_itself() {
    let mut headers = http::HeaderMap::new();
    headers.insert("x-tab", http::header::HeaderValue::from_bytes(b"a\tb\x80").unwrap());
    let map = MetadataMap::from_headers(headers);
    assert_eq!(map.get("x-tab").unwrap().debug_string(), "\"a\tb\\x80\"");
}
