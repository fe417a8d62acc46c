use http::HeaderMap;
use http::StatusCode;
use tower_grpc::status::{infer_grpc_status, Code, Status};

#[test]
fn status_from_bytes_reads_known_codes() {
    assert_eq!(Status::from_bytes(b"0").code(), Code::OK);
    assert_eq!(Status::from_bytes(b"12").code(), Code::Unimplemented);
    assert_eq!(Status::from_bytes(b"16").code(), Code::Unauthenticated);
}

#[test]
fn status_from_bytes_reads_anything_else_as_unknown() {
    assert_eq!(Status::from_bytes(b"17").code(), Code::Unknown);
    assert_eq!(Status::from_bytes(b"05").code(), Code::Unknown);
    assert_eq!(Status::from_bytes(b"abc").code(), Code::Unknown);
    assert_eq!(Status::from_bytes(b"").code(), Code::Unknown);
}

#[test]
fn status_header_value_round_trips() {
    for s in [b"0".as_ref(), b"5", b"10", b"13", b"16"] {
        let status = Status::from_bytes(s);
        assert_eq!(status.to_header_value().as_bytes(), s);
        assert_eq!(status.to_header_bytes(), s.to_vec());
        assert_eq!(Status::from_bytes(&status.to_header_bytes()).code(), status.code());
    }
}

#[test]
fn http_status_maps_to_code() {
    assert_eq!(Status::for_http_status(400).code(), Code::Internal);
    assert_eq!(Status::for_http_status(401).code(), Code::Unauthenticated);
    assert_eq!(Status::for_http_status(403).code(), Code::PermissionDenied);
    assert_eq!(Status::for_http_status(404).code(), Code::Unimplemented);
    assert_eq!(Status::for_http_status(503).code(), Code::Unavailable);
    assert_eq!(Status::for_http_status(200).code(), Code::Unknown);
}

#[test]
fn h2_reason_maps_to_code() {
    assert_eq!(Status::for_h2_reason(Some(8)).code(), Code::Cancelled);
    assert_eq!(Status::for_h2_reason(Some(7)).code(), Code::Unavailable);
    assert_eq!(Status::for_h2_reason(Some(11)).code(), Code::ResourceExhausted);
    assert_eq!(Status::for_h2_reason(Some(2)).code(), Code::Internal);
    assert_eq!(Status::for_h2_reason(None).code(), Code::Unknown);
}

#[test]
fn grpc_status_trailer_wins_over_http_status() {
    let mut trailers = HeaderMap::new();
    trailers.insert("grpc-status", "5".parse().unwrap());
    let s = infer_grpc_status(&trailers, Some(StatusCode::SERVICE_UNAVAILABLE)).unwrap();
    assert_eq!(s.code(), Code::NotFound);
}

#[test]
fn http_status_is_used_without_trailer() {
    let trailers = HeaderMap::new();
    let s = infer_grpc_status(&trailers, Some(StatusCode::NOT_FOUND)).unwrap();
    assert_eq!(s.code(), Code::Unimplemented);
    assert!(infer_grpc_status(&trailers, None).is_none());
}

#[test]
fn status_header_map_holds_the_code() {
    let h = Status::new(Code::DataLoss).to_header_map();
    assert_eq!(h.len(), 1);
    assert_eq!(h.get("grpc-status").unwrap(), "15");
}

#[test]
fn check_grpc_status_reads_the_trailer() {
    let mut trailers = HeaderMap::new();
    assert!(tower_grpc::client::check_grpc_status(&trailers).is_none());
    trailers.insert("grpc-status", "3".parse().unwrap());
    let s = tower_grpc::client::check_grpc_status(&trailers).unwrap();
    assert_eq!(s.code(), Code::InvalidArgument);
}

#[test]
fn h2_errors_map_to_codes() {
    let cancel = h2::Error::from(h2::Reason::CANCEL);
    assert_eq!(Status::from_h2_error(&cancel).code(), Code::Cancelled);
    let refused = h2::Error::from(h2::Reason::REFUSED_STREAM);
    assert_eq!(Status::from_h2_error(&refused).code(), Code::Unavailable);
    let protocol = h2::Error::from(h2::Reason::PROTOCOL_ERROR);
    assert_eq!(Status::from_h2_error(&protocol).code(), Code::Internal);
}
