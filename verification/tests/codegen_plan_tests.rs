use tower_grpc::codegen_plan::{client_plan, rustdoc, server_plan, should_import, Op, ServiceDesc, Step};
use tower_grpc::codegen_text::ServiceMethod;

fn greeter() -> ServiceDesc {
    ServiceDesc {
        name: "Greeter".to_string(),
        proto_name: "Greeter".to_string(),
        package: "helloworld".to_string(),
        doc: "The greeting service.\n".to_string(),
    }
}

fn say_hello(cs: bool, ss: bool) -> ServiceMethod {
    ServiceMethod {
        name: "say_hello".to_string(),
        proto_name: "SayHello".to_string(),
        input_type: "super::HelloRequest".to_string(),
        output_type: "super::HelloReply".to_string(),
        client_streaming: cs,
        server_streaming: ss,
        doc: "Sends a greeting\n".to_string(),
    }
}

fn has(steps: &[Step], op: Op, a: &str, b: &str) -> bool {
    steps.iter().any(|s| s.op == op && s.a == a && s.b == b)
}

fn position(steps: &[Step], op: Op, a: &str) -> usize {
    steps.iter().position(|s| s.op == op && s.a == a).unwrap()
}

#[test]
fn client_plan_opens_the_client_module_and_struct() {
    let steps = client_plan(&greeter(), &[say_hello(false, false)]);
    assert!(steps[0].op == Op::TopModule && steps[0].a == "client");
    assert!(has(&steps, Op::Import, "::tower_grpc::codegen::client", "*"));
    assert!(has(&steps, Op::Struct, "Greeter", ""));
    assert!(has(&steps, Op::Field, "inner", "grpc::Grpc<T>"));
    assert!(has(&steps, Op::Doc, "The greeting service.\n", ""));
    assert!(steps.last().unwrap().op == Op::EndModule);
}

#[test]
fn client_plan_has_a_function_per_method() {
    let steps = client_plan(&greeter(), &[say_hello(false, false), say_hello(true, true)]);
    let first = position(&steps, Op::Fn, "say_hello");
    assert!(steps[first + 5].op == Op::Line);
    assert_eq!(steps[first + 5].a, "let path = http::PathAndQuery::from_static(\"/helloworld.Greeter/SayHello\");");
    assert!(has(&steps, Op::Line, "self.inner.unary(request, path)", ""));
    assert!(has(&steps, Op::Line, "self.inner.streaming(request, path)", ""));
    assert!(has(&steps, Op::Arg, "request", "grpc::Request<super::super::HelloRequest>"));
    assert!(has(&steps, Op::Arg, "request", "grpc::Request<B>"));
    assert!(has(&steps, Op::Bound, "B", "futures::Stream<Item = super::super::HelloRequest>"));
    assert!(has(&steps, Op::Bound, "grpc::unary::Once<super::super::HelloRequest>", "grpc::Encodable<R>"));
}

#[test]
fn server_plan_has_trait_server_and_support_modules() {
    let steps = server_plan(&greeter(), &[say_hello(false, false)]);
    assert!(steps[0].op == Op::TopModule && steps[0].a == "server");
    assert!(steps[3].op == Op::Raw && steps[3].a.contains("try_ready"));
    assert!(has(&steps, Op::Trait, "Greeter", ""));
    assert!(has(&steps, Op::TraitType, "SayHelloFuture", "futures::Future<Item = grpc::Response<super::super::HelloReply>, Error = grpc::Status>"));
    assert!(has(&steps, Op::Struct, "GreeterServer", ""));
    assert!(has(&steps, Op::Block, "\"/helloworld.Greeter/SayHello\" =>", ""));
    assert!(has(&steps, Op::Module, "greeter", ""));
    assert!(has(&steps, Op::Module, "methods", ""));
    assert!(has(&steps, Op::Variant, "SayHello", "SayHello"));
    assert!(has(&steps, Op::Variant, "__Generated__Unimplemented", "__Generated__Unimplemented"));
    assert!(has(&steps, Op::Line, "self.0.say_hello(request)", ""));
    let opens = steps.iter().filter(|s| s.op == Op::Module || s.op == Op::TopModule).count();
    let closes = steps.iter().filter(|s| s.op == Op::EndModule).count();
    assert_eq!(opens, closes);
    let blocks = steps.iter().filter(|s| s.op == Op::Block).count();
    let ends = steps.iter().filter(|s| s.op == Op::EndBlock).count();
    assert_eq!(blocks, ends);
}

#[test]
fn server_streaming_method_imports_no_response_type() {
    let mut m = say_hello(false, true);
    m.output_type = "foo::Reply".to_string();
    let steps = server_plan(&greeter(), &[m]);
    assert!(has(&steps, Op::Import, "super::foo", "Reply"));
    assert!(!has(&steps, Op::Import, "super::super::foo", "Reply"));
    assert!(has(&steps, Op::TraitType, "SayHelloStream", "futures::Stream<Item = foo::Reply, Error = grpc::Status>"));
}

#[test]
fn imports_only_paths_not_seen_from_super() {
    assert!(should_import("foo::Bar"));
    assert!(!should_import("super::Bar"));
    assert!(!should_import("Bar"));
}

#[test]
fn rustdoc_trims_leading_blanks() {
    let lines = vec![" The greeting service.".to_string(), "\t  Second line".to_string()];
    assert_eq!(rustdoc(&lines), "The greeting service.\nSecond line\n");
    assert_eq!(rustdoc(&[]), "");
}
