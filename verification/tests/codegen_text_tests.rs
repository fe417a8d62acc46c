use tower_grpc::codegen_text::{
    client_method_text, response_body_arms, response_body_kind, response_fut_kind,
    response_future_poll_arms, route_lines, server_struct_text, service_method_types,
    service_trait_text, streaming_input_type, ServiceMethod,
};

fn method(name: &str, cs: bool, ss: bool) -> ServiceMethod {
    ServiceMethod {
        name: name.to_string(),
        proto_name: name.to_string(),
        input_type: "super::HelloRequest".to_string(),
        output_type: "super::HelloReply".to_string(),
        client_streaming: cs,
        server_streaming: ss,
        doc: String::new(),
    }
}

#[test]
fn route_lines_for_each_kind() {
    assert_eq!(
        route_lines("greeter", "SayHello", false, false),
        vec![
            "let service = greeter::methods::SayHello(self.greeter.clone());".to_string(),
            "let response = grpc::unary(service, request);".to_string(),
            "greeter::ResponseFuture { kind: SayHello(response) }".to_string(),
        ]
    );
    assert_eq!(
        route_lines("greeter", "Chat", true, true)[..2].to_vec(),
        vec![
            "let mut service = greeter::methods::Chat(self.greeter.clone());".to_string(),
            "let response = grpc::streaming(&mut service, request);".to_string(),
        ]
    );
    assert_eq!(route_lines("g", "S", false, true)[1], "let response = grpc::server_streaming(service, request);");
    assert_eq!(route_lines("g", "C", true, false)[1], "let response = grpc::client_streaming(&mut service, request);");
}

#[test]
fn streaming_input_type_wraps_the_input() {
    assert_eq!(streaming_input_type("super::Req", 2), "grpc::Streaming<super::super::super::Req>");
    assert_eq!(streaming_input_type("Req", 2), "grpc::Streaming<Req>");
}

#[test]
fn response_kinds_list_each_method() {
    let methods = vec![method("say_hello", false, false), method("chat", true, true)];
    assert_eq!(
        response_fut_kind(&methods),
        "Kind<\n    // say_hello\n    grpc::unary::ResponseFuture<methods::SayHello<T>, grpc::BoxBody, super::super::super::HelloRequest>,\n    // chat\n    grpc::streaming::ResponseFuture<methods::Chat<T>, grpc::Streaming<super::super::super::HelloRequest>>,\n    // A generated catch-all for unimplemented service calls\n    grpc::unimplemented::ResponseFuture,\n>"
    );
    assert_eq!(
        response_body_kind(&methods[..1]),
        "Kind<\n    // say_hello\n    grpc::Encode<grpc::unary::Once<<methods::SayHello<T> as grpc::UnaryService<super::super::super::HelloRequest>>::Response>>,\n    // A generated catch-all for unimplemented service calls\n    (),\n>"
    );
    assert_eq!(
        response_fut_kind(&[]),
        "Kind<\n    // A generated catch-all for unimplemented service calls\n    grpc::unimplemented::ResponseFuture,\n>"
    );
}

#[test]
fn client_method_text_for_each_kind() {
    let t = client_method_text(&method("say_hello", false, false));
    assert_eq!(t.ret, "grpc::unary::ResponseFuture<super::super::HelloReply, T::Future, T::ResponseBody>");
    assert_eq!(t.call, "self.inner.unary(request, path)");
    assert_eq!(t.body, "grpc::unary::Once<super::super::HelloRequest>");
    assert!(t.stream_bound.is_none());
    let s = client_method_text(&method("chat", true, true));
    assert_eq!(s.call, "self.inner.streaming(request, path)");
    assert_eq!(s.body, "B");
    assert_eq!(s.stream_bound.unwrap(), "futures::Stream<Item = super::super::HelloRequest>");
}

#[test]
fn service_trait_text_for_each_kind() {
    let t = service_trait_text(&method("say_hello", false, false));
    assert_eq!(t.future_name, "SayHelloFuture");
    assert_eq!(t.future_bound, "futures::Future<Item = grpc::Response<super::super::HelloReply>, Error = grpc::Status>");
    assert!(t.stream.is_none());
    assert_eq!(t.request_type, "grpc::Request<super::super::HelloRequest>");
    let s = service_trait_text(&method("list", true, true));
    let (name, bound) = s.stream.unwrap();
    assert_eq!(name, "ListStream");
    assert_eq!(bound, "futures::Stream<Item = super::super::HelloReply, Error = grpc::Status>");
    assert_eq!(s.future_bound, "futures::Future<Item = grpc::Response<Self::ListStream>, Error = grpc::Status>");
    assert_eq!(s.request_type, "grpc::Request<grpc::Streaming<super::super::HelloRequest>>");
}

#[test]
fn response_future_arms_per_method() {
    let arms = response_future_poll_arms(&[method("say_hello", false, false)]);
    assert_eq!(arms.len(), 2);
    assert_eq!(arms[0].0, "SayHello(ref mut fut) =>");
    assert_eq!(
        arms[0].1,
        vec![
            "let response = try_ready!(fut.poll());".to_string(),
            "let response = response.map(|body| {".to_string(),
            "    ResponseBody { kind: SayHello(body) }".to_string(),
            "});".to_string(),
            "Ok(response.into())".to_string(),
        ]
    );
    assert_eq!(arms[1].0, "__Generated__Unimplemented(ref mut fut) =>");
}

#[test]
fn response_body_arms_per_method() {
    let (ends, bufs, trailers) = response_body_arms(&[method("say_hello", false, true)]);
    assert_eq!(ends, vec!["SayHello(ref v) => v.is_end_stream(),".to_string(), "__Generated__Unimplemented(_) => true,".to_string()]);
    assert_eq!(bufs[0], "SayHello(ref mut v) => v.poll_buf(),");
    assert_eq!(bufs[1], "__Generated__Unimplemented(_) => Ok(None.into()),");
    assert_eq!(trailers[0], "SayHello(ref mut v) => v.poll_trailers(),");
}

#[test]
fn service_method_types_per_kind() {
    assert_eq!(
        service_method_types(&method("say_hello", false, false)),
        ("grpc::Request<super::super::super::super::HelloRequest>".to_string(),
         "grpc::Response<super::super::super::super::HelloReply>".to_string())
    );
    let (req, resp) = service_method_types(&method("say_hello", true, true));
    assert_eq!(req, "grpc::Request<grpc::Streaming<super::super::super::super::HelloRequest>>");
    assert_eq!(resp, "grpc::Response<T::SayHelloStream>");
}

#[test]
fn server_struct_texts() {
    let t = server_struct_text("RouteGuide");
    assert_eq!(t.name, "RouteGuideServer");
    assert_eq!(t.field, "route_guide");
    assert_eq!(t.new_line, "Self { route_guide }");
    assert_eq!(t.response, "http::Response<route_guide::ResponseBody<T>>");
    assert_eq!(t.future, "route_guide::ResponseFuture<T>");
    assert_eq!(t.use_line, "use self::route_guide::Kind::*;");
    assert_eq!(
        t.catch_all,
        "route_guide::ResponseFuture { kind: __Generated__Unimplemented(grpc::unimplemented(format!(\"unknown service: {:?}\", request.uri().path()))) }"
    );
}
