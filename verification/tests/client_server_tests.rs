use http::HeaderMap;
use http::uri::PathAndQuery;
use tower_grpc::client::{add_grpc_headers, response_direction, single_message, Builder};
use tower_grpc::codec::Direction;
use tower_grpc::status::Code;
use tower_grpc::examples::{ask_to_enter, client_payload, layer};
use tower_grpc::request::Request;
use tower_grpc::server::unimplemented;

#[test]
fn builder_needs_scheme_and_authority() {
    let mut b = Builder::new();
    b.uri("http://localhost:50051".parse().unwrap());
    assert!(b.build(()).is_ok());
    let mut b2 = Builder::new();
    b2.uri("/only/a/path".parse().unwrap());
    assert!(b2.build(()).is_err());
}

#[test]
fn client_builds_method_uri() {
    let mut b = Builder::new();
    b.uri("http://localhost:50051".parse().unwrap());
    let mut grpc = b.build(()).unwrap();
    let uri = grpc.method_uri(PathAndQuery::from_static("/helloworld.Greeter/SayHello"));
    assert_eq!(uri.to_string(), "http://localhost:50051/helloworld.Greeter/SayHello");
    let call = grpc.streaming(Request::new(7u8), PathAndQuery::from_static("/a.B/C"));
    assert_eq!(call.body, 7);
    assert_eq!(call.headers.len(), 2);
    let req = call.into_http();
    assert_eq!(req.uri().to_string(), "http://localhost:50051/a.B/C");
    assert_eq!(req.method(), http::Method::POST);
    assert_eq!(req.headers().get("te").unwrap(), "trailers");
    assert_eq!(req.headers().get("content-type").unwrap(), "application/grpc+proto");
    assert_eq!(*req.body(), 7);
}

#[test]
fn grpc_headers_replace_existing_ones() {
    let mut h = HeaderMap::new();
    h.append("te", "gzip".parse().unwrap());
    h.append("te", "deflate".parse().unwrap());
    h.insert("x-other", "kept".parse().unwrap());
    add_grpc_headers(&mut h);
    assert_eq!(h.get_all("te").iter().count(), 1);
    assert_eq!(h.get("te").unwrap(), "trailers");
    assert_eq!(h.get("x-other").unwrap(), "kept");
}

#[test]
fn unimplemented_sends_status_twelve() {
    let h = unimplemented("no such method".to_string());
    assert_eq!(h.len(), 1);
    assert_eq!(h.get("grpc-status").unwrap(), "12");
}

#[test]
fn client_payload_is_zeros() {
    let p = client_payload(4);
    assert_eq!(p.type_, 0);
    assert_eq!(p.body, vec![0, 0, 0, 0]);
    assert!(client_payload(0).body.is_empty());
}

#[test]
fn origin_rewrites_request_uri() {
    let a = layer((), "http://example.com").unwrap();
    assert!(a.has_usable_origin());
    let uri = a.rewrite_uri(&"/svc/Method?x=1".parse().unwrap());
    assert_eq!(uri.to_string(), "http://example.com/svc/Method?x=1");
    let b = layer((), "http://example.com/path").unwrap();
    assert!(!b.has_usable_origin());
    assert!(layer((), "not a uri").is_err());
}

#[test]
fn response_head_decides_how_to_read_the_body() {
    let mut headers = HeaderMap::new();
    match response_direction(&headers, http::StatusCode::OK) {
        Ok(Direction::Response(code)) => assert_eq!(code, http::StatusCode::OK),
        _ => panic!("expected a body to read"),
    }
    headers.insert("grpc-status", "0".parse().unwrap());
    assert!(matches!(response_direction(&headers, http::StatusCode::OK), Ok(Direction::EmptyResponse)));
    headers.insert("grpc-status", "5".parse().unwrap());
    match response_direction(&headers, http::StatusCode::OK) {
        Err(s) => assert_eq!(s.code(), Code::NotFound),
        Ok(_) => panic!("expected an error"),
    }
}

#[test]
fn unary_response_needs_a_message() {
    assert_eq!(single_message(Some(3)).unwrap(), 3);
    assert_eq!(single_message::<u8>(None).unwrap_err().code(), Code::Internal);
}

#[test]
fn doorman_wants_the_cookie() {
    let mut h = HeaderMap::new();
    assert_eq!(ask_to_enter(&h), "You cannot come in!");
    h.append("metadata", "Here is a cookie".parse().unwrap());
    assert_eq!(ask_to_enter(&h), "Yummy! Please come in.");
    h.insert("metadata", "Here is a biscuit".parse().unwrap());
    assert_eq!(ask_to_enter(&h), "You cannot come in!");
}

#[test]
fn unary_and_client_streaming_calls_send_grpc_posts() {
    let mut b = Builder::new();
    b.uri("https://example.com:443".parse().unwrap());
    let mut grpc = b.build(()).unwrap();
    let mut request = Request::new("hi");
    request.metadata_mut().insert("content-type", "text/plain".parse().unwrap());
    request.metadata_mut().insert("x-keep", "1".parse().unwrap());
    let call = grpc.unary(request, PathAndQuery::from_static("/pkg.Svc/Unary"));
    assert_eq!(call.uri.to_string(), "https://example.com:443/pkg.Svc/Unary");
    assert_eq!(call.headers.get("content-type").unwrap(), "application/grpc+proto");
    assert_eq!(call.headers.get("x-keep").unwrap(), "1");
    let req = call.into_http();
    assert_eq!(req.method(), http::Method::POST);
    assert_eq!(req.version(), http::Version::HTTP_2);
    let streamed = grpc.client_streaming(Request::new(vec![1u8, 2]), PathAndQuery::from_static("/pkg.Svc/Up"));
    assert_eq!(streamed.body, vec![1, 2]);
    assert_eq!(streamed.uri.path(), "/pkg.Svc/Up");
    let server = grpc.server_streaming(Request::new(3u8), PathAndQuery::from_static("/pkg.Svc/Down"));
    assert_eq!(server.headers.get("te").unwrap(), "trailers");
    assert_eq!(server.uri.path(), "/pkg.Svc/Down");
}
