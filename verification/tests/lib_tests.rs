use tower_grpc::codegen_plan::{client_plan, server_plan, Op, ServiceDesc};
use tower_grpc::codegen_text::ServiceMethod;
use tower_grpc::request::Request;
use tower_grpc::response::Response;

fn hello_service() -> (ServiceDesc, Vec<ServiceMethod>) {
    let desc = ServiceDesc {
        name: "Hello".to_string(),
        proto_name: "Hello".to_string(),
        package: "hello".to_string(),
        doc: String::new(),
    };
    let method = |name: &str, proto: &str| ServiceMethod {
        name: name.to_string(),
        proto_name: proto.to_string(),
        input_type: "super::HelloRequest".to_string(),
        output_type: "super::HelloResponse".to_string(),
        client_streaming: false,
        server_streaming: false,
        doc: String::new(),
    };
    (desc, vec![method("say_hello", "SayHello"), method("say_hello2", "SayHello2")])
}

#[test]
fn lib_types_are_present() {
    let (desc, methods) = hello_service();
    let client = client_plan(&desc, &methods);
    assert!(client.iter().any(|s| s.op == Op::Struct && s.a == "Hello"));
    let server = server_plan(&desc, &methods);
    assert!(server.iter().any(|s| s.op == Op::Trait && s.a == "Hello"));
    assert!(server.iter().any(|s| s.op == Op::Struct && s.a == "HelloServer"));
}

#[test]
fn lib_can_call() {
    let (desc, methods) = hello_service();
    let client = client_plan(&desc, &methods);
    for name in ["say_hello", "say_hello2"].iter() {
        let at = client.iter().position(|s| s.op == Op::Fn && s.a == *name).unwrap();
        assert!(client[at + 1].op == Op::Vis && client[at + 1].a == "pub");
        let call = client[at..].iter().find(|s| s.op == Op::Line && s.a.starts_with("self.inner.")).unwrap();
        assert_eq!(call.a, "self.inner.unary(request, path)");
    }
}

#[test]
fn request_keeps_message_and_metadata() {
    let mut r = Request::new(5u32);
    assert_eq!(*r.get_ref(), 5);
    *r.get_mut() = 6;
    r.metadata_mut().insert("x-a", "1".parse().unwrap());
    let r2 = r.map(|n| n * 2);
    assert_eq!(*r2.get_ref(), 12);
    assert_eq!(r2.metadata().get("x-a").unwrap(), "1");
}

#[test]
fn request_to_http_is_an_http2_post() {
    let mut r = Request::new("body");
    r.metadata_mut().insert("x-a", "1".parse().unwrap());
    let http = r.into_http("http://example.com/svc/Method".parse().unwrap());
    assert_eq!(http.method(), http::Method::POST);
    assert_eq!(http.version(), http::Version::HTTP_2);
    assert_eq!(http.uri().path(), "/svc/Method");
    assert_eq!(http.headers().get("x-a").unwrap(), "1");
    let back = Request::from_http(http);
    assert_eq!(*back.get_ref(), "body");
    assert_eq!(back.metadata().get("x-a").unwrap(), "1");
}

#[test]
fn response_keeps_message() {
    let mut r = Response::new(String::from("hi"));
    r.get_mut().push('!');
    assert_eq!(r.get_ref(), "hi!");
    let r2 = r.map(|s| s.len());
    assert_eq!(r2.into_inner(), 3);
    let http = Response::new(1u8).into_http();
    assert_eq!(http.version(), http::Version::HTTP_2);
    assert_eq!(*Response::from_http(http).get_ref(), 1);
}
