//! The text of the generated server code that depends on each gRPC method:
//! the lines that route a call to it, and the types of its response future
//! and body.
use vstd::prelude::*;

use crate::names::{lower_name, lower_name_of, push_all, to_upper_camel, unqualified, unqualified_path, upper_camel_of};

verus! {

/// A method of a gRPC service, as the code generator reads it.
pub struct ServiceMethod {
    /// The method's Rust name.
    pub name: String,
    /// The method's name in the `.proto` file.
    pub proto_name: String,
    /// The type path of the request message.
    pub input_type: String,
    /// The type path of the response message.
    pub output_type: String,
    /// Whether the client sends a stream of messages.
    pub client_streaming: bool,
    /// Whether the server answers with a stream of messages.
    pub server_streaming: bool,
    /// The documentation of the method, from its comments.
    pub doc: String,
}

/// The function of the server library that serves a method of this kind.
pub open spec fn serve_fn(client_streaming: bool, server_streaming: bool) -> Seq<char> {
    if !client_streaming && !server_streaming {
        "unary"@
    } else if !client_streaming {
        "server_streaming"@
    } else if !server_streaming {
        "client_streaming"@
    } else {
        "streaming"@
    }
}

/// The lines that serve a call of a method in the generated server: make
/// the method's service, serve the request with the function for its kind,
/// and wrap the response in the future variant named after the method.
pub open spec fn route_lines_of(lower: Seq<char>, upper: Seq<char>, client_streaming: bool, server_streaming: bool) -> Seq<Seq<char>> {
    seq![
        (if client_streaming { "let mut service = "@ } else { "let service = "@ }) + lower + "::methods::"@ + upper + "(self."@ + lower + ".clone());"@,
        "let response = grpc::"@ + serve_fn(client_streaming, server_streaming) + "("@ + (if client_streaming { "&mut service"@ } else { "service"@ }) + ", request);"@,
        lower + "::ResponseFuture { kind: "@ + upper + "(response) }"@
    ]
}

/// The lines that serve a call of a method in the generated server.
pub fn route_lines(lower: &str, upper: &str, client_streaming: bool, server_streaming: bool) -> (r: Vec<String>)
    ensures
        r@.len() == 3,
        forall|i: int| 0 <= i < 3 ==> (#[trigger] r@[i])@ == route_lines_of(lower@, upper@, client_streaming, server_streaming)[i],
{
    let mut first = String::new();
    if client_streaming {
        push_all(&mut first, "let mut service = ");
    } else {
        push_all(&mut first, "let service = ");
    }
    push_all(&mut first, lower);
    push_all(&mut first, "::methods::");
    push_all(&mut first, upper);
    push_all(&mut first, "(self.");
    push_all(&mut first, lower);
    push_all(&mut first, ".clone());");

    let mut second = String::new();
    push_all(&mut second, "let response = grpc::");
    if !client_streaming && !server_streaming {
        push_all(&mut second, "unary");
    } else if !client_streaming {
        push_all(&mut second, "server_streaming");
    } else if !server_streaming {
        push_all(&mut second, "client_streaming");
    } else {
        push_all(&mut second, "streaming");
    }
    push_all(&mut second, "(");
    if client_streaming {
        push_all(&mut second, "&mut service");
    } else {
        push_all(&mut second, "service");
    }
    push_all(&mut second, ", request);");

    let mut third = String::new();
    push_all(&mut third, lower);
    push_all(&mut third, "::ResponseFuture { kind: ");
    push_all(&mut third, upper);
    push_all(&mut third, "(response) }");

    let ghost spec_lines = route_lines_of(lower@, upper@, client_streaming, server_streaming);
    assert(first@ == spec_lines[0]);
    assert(second@ == spec_lines[1]);
    assert(third@ == spec_lines[2]);
    let mut r: Vec<String> = Vec::new();
    r.push(first);
    r.push(second);
    r.push(third);
    r
}

/// The request type of a method whose client streams, seen from `level`
/// modules down.
pub open spec fn streaming_input_type_of(input_type: Seq<char>, level: nat) -> Seq<char> {
    "grpc::Streaming<"@ + unqualified_path(input_type, level) + ">"@
}

/// The request type of a method whose client streams, seen from `level`
/// modules down.
pub fn streaming_input_type(input_type: &str, level: usize) -> (r: String)
    ensures
        r@ == streaming_input_type_of(input_type@, level as nat),
{
    let mut r = String::new();
    push_all(&mut r, "grpc::Streaming<");
    let u = unqualified(input_type, level);
    push_all(&mut r, u.as_str());
    push_all(&mut r, ">");
    r
}

/// The plain values of a method that the generated types depend on.
pub open spec fn method_view(m: ServiceMethod) -> (Seq<char>, Seq<char>, bool, bool) {
    (m.proto_name@, m.input_type@, m.client_streaming, m.server_streaming)
}

/// The variant of the response future for one method, with the comment
/// that names it.
pub open spec fn fut_variant_of(m: (Seq<char>, Seq<char>, bool, bool)) -> Seq<char> {
    let upper = upper_camel_of(m.0);
    let unq = unqualified_path(m.1, 2);
    let sit = streaming_input_type_of(m.1, 2);
    "    // "@ + m.0 + "\n"@ + if !m.2 && !m.3 {
        "    grpc::unary::ResponseFuture<methods::"@ + upper + "<T>, grpc::BoxBody, "@ + unq + ">,\n"@
    } else if !m.2 {
        "    grpc::server_streaming::ResponseFuture<methods::"@ + upper + "<T>, grpc::BoxBody, "@ + unq + ">,\n"@
    } else if !m.3 {
        "    grpc::client_streaming::ResponseFuture<methods::"@ + upper + "<T>, "@ + sit + ">,\n"@
    } else {
        "    grpc::streaming::ResponseFuture<methods::"@ + upper + "<T>, "@ + sit + ">,\n"@
    }
}

/// The variant of the response body for one method, with the comment that
/// names it.
pub open spec fn body_variant_of(m: (Seq<char>, Seq<char>, bool, bool)) -> Seq<char> {
    let upper = upper_camel_of(m.0);
    let unq = unqualified_path(m.1, 2);
    let sit = streaming_input_type_of(m.1, 2);
    "    // "@ + m.0 + "\n"@ + if !m.2 && !m.3 {
        "    grpc::Encode<grpc::unary::Once<<methods::"@ + upper + "<T> as grpc::UnaryService<"@ + unq + ">>::Response>>,\n"@
    } else if !m.2 {
        "    grpc::Encode<<methods::"@ + upper + "<T> as grpc::ServerStreamingService<"@ + unq + ">>::ResponseStream>,\n"@
    } else if !m.3 {
        "    grpc::Encode<grpc::unary::Once<<methods::"@ + upper + "<T> as grpc::ClientStreamingService<"@ + sit + ">>::Response>>,\n"@
    } else {
        "    grpc::Encode<<methods::"@ + upper + "<T> as grpc::StreamingService<"@ + sit + ">>::ResponseStream>,\n"@
    }
}

/// The variants of all methods, in order.
pub open spec fn variants_of(ms: Seq<(Seq<char>, Seq<char>, bool, bool)>, body: bool) -> Seq<char>
    decreases ms.len(),
{
    if ms.len() == 0 {
        Seq::empty()
    } else {
        variants_of(ms.drop_last(), body) + if body { body_variant_of(ms.last()) } else { fut_variant_of(ms.last()) }
    }
}

/// The views of the methods.
pub open spec fn methods_view(ms: Seq<ServiceMethod>) -> Seq<(Seq<char>, Seq<char>, bool, bool)> {
    Seq::new(ms.len(), |i: int| method_view(ms[i]))
}

/// The type of the generated response future: a `Kind` with one variant per
/// method, and one for calls of methods the service does not implement.
pub open spec fn response_fut_kind_of(ms: Seq<(Seq<char>, Seq<char>, bool, bool)>) -> Seq<char> {
    "Kind<\n"@ + variants_of(ms, false) + "    // A generated catch-all for unimplemented service calls\n"@
        + "    grpc::unimplemented::ResponseFuture,\n"@ + ">"@
}

/// The type of the generated response body: a `Kind` with one variant per
/// method, and an empty one for calls of methods the service does not
/// implement.
pub open spec fn response_body_kind_of(ms: Seq<(Seq<char>, Seq<char>, bool, bool)>) -> Seq<char> {
    "Kind<\n"@ + variants_of(ms, true) + "    // A generated catch-all for unimplemented service calls\n"@
        + "    (),\n"@ + ">"@
}

/// Appends the text of a variant: its first part, the method's type name,
/// its middle part, a type, and its last part.
fn push_parts(r: &mut String, first: &str, upper: &str, middle: &str, ty: &str, last: &str)
    ensures
        final(r)@ == old(r)@ + (first@ + upper@ + middle@ + ty@ + last@),
{
    push_all(r, first);
    push_all(r, upper);
    push_all(r, middle);
    push_all(r, ty);
    push_all(r, last);
    assert(r@ =~= old(r)@ + (first@ + upper@ + middle@ + ty@ + last@));
}

/// Appends the variant of the response future for one method.
fn push_fut_variant(r: &mut String, m: &ServiceMethod)
    ensures
        final(r)@ == old(r)@ + fut_variant_of(method_view(*m)),
{
    let upper = to_upper_camel(m.proto_name.as_str());
    let ghost before = r@;
    push_all(r, "    // ");
    push_all(r, m.proto_name.as_str());
    push_all(r, "\n");
    let ghost head = r@;
    assert(head =~= before + ("    // "@ + m.proto_name@ + "\n"@));
    let cs = m.client_streaming;
    let ss = m.server_streaming;
    if !cs && !ss {
        let unq = unqualified(m.input_type.as_str(), 2);
        push_parts(r, "    grpc::unary::ResponseFuture<methods::", upper.as_str(), "<T>, grpc::BoxBody, ", unq.as_str(), ">,\n");
    } else if !cs {
        let unq = unqualified(m.input_type.as_str(), 2);
        push_parts(r, "    grpc::server_streaming::ResponseFuture<methods::", upper.as_str(), "<T>, grpc::BoxBody, ", unq.as_str(), ">,\n");
    } else if !ss {
        let sit = streaming_input_type(m.input_type.as_str(), 2);
        push_parts(r, "    grpc::client_streaming::ResponseFuture<methods::", upper.as_str(), "<T>, ", sit.as_str(), ">,\n");
    } else {
        let sit = streaming_input_type(m.input_type.as_str(), 2);
        push_parts(r, "    grpc::streaming::ResponseFuture<methods::", upper.as_str(), "<T>, ", sit.as_str(), ">,\n");
    }
    assert(r@ =~= before + fut_variant_of(method_view(*m)));
}

/// Appends the variant of the response body for one method.
fn push_body_variant(r: &mut String, m: &ServiceMethod)
    ensures
        final(r)@ == old(r)@ + body_variant_of(method_view(*m)),
{
    let upper = to_upper_camel(m.proto_name.as_str());
    let ghost before = r@;
    push_all(r, "    // ");
    push_all(r, m.proto_name.as_str());
    push_all(r, "\n");
    let ghost head = r@;
    assert(head =~= before + ("    // "@ + m.proto_name@ + "\n"@));
    let cs = m.client_streaming;
    let ss = m.server_streaming;
    if !cs && !ss {
        let unq = unqualified(m.input_type.as_str(), 2);
        push_parts(r, "    grpc::Encode<grpc::unary::Once<<methods::", upper.as_str(), "<T> as grpc::UnaryService<", unq.as_str(), ">>::Response>>,\n");
    } else if !cs {
        let unq = unqualified(m.input_type.as_str(), 2);
        push_parts(r, "    grpc::Encode<<methods::", upper.as_str(), "<T> as grpc::ServerStreamingService<", unq.as_str(), ">>::ResponseStream>,\n");
    } else if !ss {
        let sit = streaming_input_type(m.input_type.as_str(), 2);
        push_parts(r, "    grpc::Encode<grpc::unary::Once<<methods::", upper.as_str(), "<T> as grpc::ClientStreamingService<", sit.as_str(), ">>::Response>>,\n");
    } else {
        let sit = streaming_input_type(m.input_type.as_str(), 2);
        push_parts(r, "    grpc::Encode<<methods::", upper.as_str(), "<T> as grpc::StreamingService<", sit.as_str(), ">>::ResponseStream>,\n");
    }
    assert(r@ =~= before + body_variant_of(method_view(*m)));
}

/// Appends the variant of one method.
fn push_variant(r: &mut String, m: &ServiceMethod, body: bool)
    ensures
        final(r)@ == old(r)@ + if body { body_variant_of(method_view(*m)) } else { fut_variant_of(method_view(*m)) },
{
    if body {
        push_body_variant(r, m);
    } else {
        push_fut_variant(r, m);
    }
}

/// The `Kind` type over the methods, for the response future or the body.
fn kind_type(methods: &[ServiceMethod], body: bool) -> (r: String)
    ensures
        r@ == "Kind<\n"@ + variants_of(methods_view(methods@), body),
{
    let mut r = String::new();
    push_all(&mut r, "Kind<\n");
    let mut i: usize = 0;
    while i < methods.len()
        invariant
            i <= methods@.len(),
            r@ == "Kind<\n"@ + variants_of(methods_view(methods@).take(i as int), body),
        decreases methods@.len() - i,
    {
        push_variant(&mut r, &methods[i], body);
        proof {
            assert(methods_view(methods@).take(i as int + 1).drop_last() =~= methods_view(methods@).take(i as int));
        }
        i = i + 1;
    }
    assert(methods_view(methods@).take(methods@.len() as int) =~= methods_view(methods@));
    r
}

/// The type of the generated response future of a service.
pub fn response_fut_kind(methods: &[ServiceMethod]) -> (r: String)
    ensures
        r@ == response_fut_kind_of(methods_view(methods@)),
{
    let mut r = kind_type(methods, false);
    push_all(&mut r, "    // A generated catch-all for unimplemented service calls\n");
    push_all(&mut r, "    grpc::unimplemented::ResponseFuture,\n");
    push_all(&mut r, ">");
    r
}

/// The type of the generated response body of a service.
pub fn response_body_kind(methods: &[ServiceMethod]) -> (r: String)
    ensures
        r@ == response_body_kind_of(methods_view(methods@)),
{
    let mut r = kind_type(methods, true);
    push_all(&mut r, "    // A generated catch-all for unimplemented service calls\n");
    push_all(&mut r, "    (),\n");
    push_all(&mut r, ">");
    r
}

/// The types and the line of a generated client method: its return type,
/// the line that makes the call, the type its request body is, and for a
/// streaming client the bound on that body.
pub struct ClientMethodText {
    /// The return type.
    pub ret: String,
    /// The line that makes the call.
    pub call: String,
    /// The type of the request body, which must be `grpc::Encodable`.
    pub body: String,
    /// For a streaming client, the bound on the body type `B`.
    pub stream_bound: Option<String>,
}

/// The text of a generated client method, seen one module down: the return
/// type names the output type, the call goes to the function of the
/// method's kind, and a streaming client's body is a stream of the input
/// type.
pub open spec fn client_method_text_of(input: Seq<char>, output: Seq<char>, cs: bool, ss: bool) -> (Seq<char>, Seq<char>, Seq<char>, Option<Seq<char>>) {
    let i = unqualified_path(input, 1);
    let o = unqualified_path(output, 1);
    if !cs && !ss {
        ("grpc::unary::ResponseFuture<"@ + o + ", T::Future, T::ResponseBody>"@, "self.inner.unary(request, path)"@,
            "grpc::unary::Once<"@ + i + ">"@, None)
    } else if !cs {
        ("grpc::server_streaming::ResponseFuture<"@ + o + ", T::Future>"@, "self.inner.server_streaming(request, path)"@,
            "grpc::unary::Once<"@ + i + ">"@, None)
    } else if !ss {
        ("grpc::client_streaming::ResponseFuture<"@ + o + ", T::Future, T::ResponseBody>"@, "self.inner.client_streaming(request, path)"@,
            "B"@, Some("futures::Stream<Item = "@ + i + ">"@))
    } else {
        ("grpc::streaming::ResponseFuture<"@ + o + ", T::Future>"@, "self.inner.streaming(request, path)"@,
            "B"@, Some("futures::Stream<Item = "@ + i + ">"@))
    }
}

/// A string of three parts.
fn cat3(a: &str, b: &str, c: &str) -> (r: String)
    ensures
        r@ == a@ + b@ + c@,
{
    let mut r = String::new();
    push_all(&mut r, a);
    push_all(&mut r, b);
    push_all(&mut r, c);
    assert(r@ =~= a@ + b@ + c@);
    r
}

/// A string of two parts.
fn cat2(a: &str, b: &str) -> (r: String)
    ensures
        r@ == a@ + b@,
{
    let mut r = String::new();
    push_all(&mut r, a);
    push_all(&mut r, b);
    assert(r@ =~= a@ + b@);
    r
}

/// A copy of a string.
fn owned(a: &str) -> (r: String)
    ensures
        r@ == a@,
{
    a.to_owned()
}

/// The text of a generated client method.
pub fn client_method_text(m: &ServiceMethod) -> (r: ClientMethodText)
    ensures
        (r.ret@, r.call@, r.body@, match r.stream_bound { Some(b) => Some(b@), None => None })
            == client_method_text_of(m.input_type@, m.output_type@, m.client_streaming, m.server_streaming),
{
    let i = unqualified(m.input_type.as_str(), 1);
    let o = unqualified(m.output_type.as_str(), 1);
    let cs = m.client_streaming;
    let ss = m.server_streaming;
    if !cs && !ss {
        ClientMethodText {
            ret: cat3("grpc::unary::ResponseFuture<", o.as_str(), ", T::Future, T::ResponseBody>"),
            call: owned("self.inner.unary(request, path)"),
            body: cat3("grpc::unary::Once<", i.as_str(), ">"),
            stream_bound: None,
        }
    } else if !cs {
        ClientMethodText {
            ret: cat3("grpc::server_streaming::ResponseFuture<", o.as_str(), ", T::Future>"),
            call: owned("self.inner.server_streaming(request, path)"),
            body: cat3("grpc::unary::Once<", i.as_str(), ">"),
            stream_bound: None,
        }
    } else if !ss {
        ClientMethodText {
            ret: cat3("grpc::client_streaming::ResponseFuture<", o.as_str(), ", T::Future, T::ResponseBody>"),
            call: owned("self.inner.client_streaming(request, path)"),
            body: owned("B"),
            stream_bound: Some(cat3("futures::Stream<Item = ", i.as_str(), ">")),
        }
    } else {
        ClientMethodText {
            ret: cat3("grpc::streaming::ResponseFuture<", o.as_str(), ", T::Future>"),
            call: owned("self.inner.streaming(request, path)"),
            body: owned("B"),
            stream_bound: Some(cat3("futures::Stream<Item = ", i.as_str(), ">")),
        }
    }
}

/// The text of a method of the generated service trait: the name and bound
/// of its future type, the name and bound of its stream type where the
/// server streams, and the type of its request.
pub struct ServiceTraitText {
    /// The name of the associated future type.
    pub future_name: String,
    /// The bound on the future type.
    pub future_bound: String,
    /// Where the server streams, the name and bound of the stream type.
    pub stream: Option<(String, String)>,
    /// The type of the request argument.
    pub request_type: String,
}

/// The text of a method of the generated service trait, seen one module
/// down.
pub open spec fn service_trait_text_of(proto_name: Seq<char>, input: Seq<char>, output: Seq<char>, cs: bool, ss: bool)
    -> (Seq<char>, Seq<char>, Option<(Seq<char>, Seq<char>)>, Seq<char>)
{
    let upper = upper_camel_of(proto_name);
    let i = unqualified_path(input, 1);
    let o = unqualified_path(output, 1);
    let future_name = upper + "Future"@;
    let future_bound = if ss {
        "futures::Future<Item = grpc::Response<Self::"@ + (upper + "Stream"@) + ">, Error = grpc::Status>"@
    } else {
        "futures::Future<Item = grpc::Response<"@ + o + ">, Error = grpc::Status>"@
    };
    let stream = if ss {
        Some((upper + "Stream"@, "futures::Stream<Item = "@ + o + ", Error = grpc::Status>"@))
    } else {
        None
    };
    let request_type = if cs {
        "grpc::Request<grpc::Streaming<"@ + i + ">>"@
    } else {
        "grpc::Request<"@ + i + ">"@
    };
    (future_name, future_bound, stream, request_type)
}

/// The text of a method of the generated service trait.
pub fn service_trait_text(m: &ServiceMethod) -> (r: ServiceTraitText)
    ensures
        (r.future_name@, r.future_bound@, match r.stream { Some(p) => Some((p.0@, p.1@)), None => None }, r.request_type@)
            == service_trait_text_of(m.proto_name@, m.input_type@, m.output_type@, m.client_streaming, m.server_streaming),
{
    let upper = to_upper_camel(m.proto_name.as_str());
    let i = unqualified(m.input_type.as_str(), 1);
    let o = unqualified(m.output_type.as_str(), 1);
    let future_name = cat2(upper.as_str(), "Future");
    let (future_bound, stream) = if m.server_streaming {
        let stream_name = cat2(upper.as_str(), "Stream");
        let bound = cat3("futures::Future<Item = grpc::Response<Self::", stream_name.as_str(), ">, Error = grpc::Status>");
        let stream_bound = cat3("futures::Stream<Item = ", o.as_str(), ", Error = grpc::Status>");
        (bound, Some((stream_name, stream_bound)))
    } else {
        (cat3("futures::Future<Item = grpc::Response<", o.as_str(), ">, Error = grpc::Status>"), None)
    };
    let request_type = if m.client_streaming {
        cat3("grpc::Request<grpc::Streaming<", i.as_str(), ">>")
    } else {
        cat3("grpc::Request<", i.as_str(), ">")
    };
    ServiceTraitText { future_name, future_bound, stream, request_type }
}

/// The name of the variant for calls of methods a service does not have.
pub open spec fn unimplemented_variant() -> Seq<char> {
    "__Generated__Unimplemented"@
}

/// A string of four parts.
fn cat4(a: &str, b: &str, c: &str, d: &str) -> (r: String)
    ensures
        r@ == a@ + b@ + c@ + d@,
{
    let mut r = String::new();
    push_all(&mut r, a);
    push_all(&mut r, b);
    push_all(&mut r, c);
    push_all(&mut r, d);
    assert(r@ =~= a@ + b@ + c@ + d@);
    r
}

/// The arm of the generated response future's `poll` for the variant
/// `variant`: its pattern, and the lines that poll the inner future and
/// wrap its body in the response body's variant of the same name.
pub open spec fn poll_arm_of(variant: Seq<char>) -> (Seq<char>, Seq<Seq<char>>) {
    (variant + "(ref mut fut) =>"@, seq![
        "let response = try_ready!(fut.poll());"@,
        "let response = response.map(|body| {"@,
        "    ResponseBody { kind: "@ + variant + "(body) }"@,
        "});"@,
        "Ok(response.into())"@,
    ])
}

/// The arms of the generated response future's `poll`: one for each
/// method, named after it, then one for calls of methods the service does
/// not have.
pub open spec fn poll_arms_of(ms: Seq<(Seq<char>, Seq<char>, bool, bool)>) -> Seq<(Seq<char>, Seq<Seq<char>>)> {
    Seq::new(ms.len() + 1, |i: int|
        if i < ms.len() { poll_arm_of(upper_camel_of(ms[i].0)) } else { poll_arm_of(unimplemented_variant()) })
}

/// An arm as plain text: its pattern and its lines.
pub open spec fn arm_view(a: (String, Vec<String>)) -> (Seq<char>, Seq<Seq<char>>) {
    (a.0@, a.1@.map_values(|l: String| l@))
}

/// The arm of the response future's `poll` for one variant.
fn poll_arm(variant: &str) -> (r: (String, Vec<String>))
    ensures
        arm_view(r) == poll_arm_of(variant@),
{
    let head = cat2(variant, "(ref mut fut) =>");
    let mut lines: Vec<String> = Vec::new();
    lines.push(owned("let response = try_ready!(fut.poll());"));
    lines.push(owned("let response = response.map(|body| {"));
    lines.push(cat3("    ResponseBody { kind: ", variant, "(body) }"));
    lines.push(owned("});"));
    lines.push(owned("Ok(response.into())"));
    let r = (head, lines);
    assert(arm_view(r).1 =~= poll_arm_of(variant@).1);
    r
}

/// The arms of the generated response future's `poll`, in order.
pub fn response_future_poll_arms(methods: &[ServiceMethod]) -> (r: Vec<(String, Vec<String>)>)
    ensures
        r@.map_values(|a: (String, Vec<String>)| arm_view(a)) == poll_arms_of(methods_view(methods@)),
{
    let mut r: Vec<(String, Vec<String>)> = Vec::new();
    let mut i: usize = 0;
    while i < methods.len()
        invariant
            i <= methods@.len(),
            r@.len() == i,
            forall|k: int| 0 <= k < i ==> arm_view(#[trigger] r@[k]) == poll_arms_of(methods_view(methods@))[k],
        decreases methods@.len() - i,
    {
        let upper = to_upper_camel(methods[i].proto_name.as_str());
        r.push(poll_arm(upper.as_str()));
        i = i + 1;
    }
    r.push(poll_arm("__Generated__Unimplemented"));
    assert(r@.map_values(|a: (String, Vec<String>)| arm_view(a)) =~= poll_arms_of(methods_view(methods@)));
    r
}

/// The lines of the generated response body's `is_end_stream`, `poll_buf`
/// and `poll_trailers` matches for one method's variant.
pub open spec fn body_lines_of(variant: Seq<char>) -> (Seq<char>, Seq<char>, Seq<char>) {
    (variant + "(ref v) => v.is_end_stream(),"@,
     variant + "(ref mut v) => v.poll_buf(),"@,
     variant + "(ref mut v) => v.poll_trailers(),"@)
}

/// The lines of the generated response body's three matches: one for each
/// method, then the variant for calls of methods the service does not
/// have, which has ended and carries nothing.
pub open spec fn body_arms_of(ms: Seq<(Seq<char>, Seq<char>, bool, bool)>) -> (Seq<Seq<char>>, Seq<Seq<char>>, Seq<Seq<char>>) {
    (Seq::new(ms.len(), |i: int| body_lines_of(upper_camel_of(ms[i].0)).0).push(unimplemented_variant() + "(_) => true,"@),
     Seq::new(ms.len(), |i: int| body_lines_of(upper_camel_of(ms[i].0)).1).push(unimplemented_variant() + "(_) => Ok(None.into()),"@),
     Seq::new(ms.len(), |i: int| body_lines_of(upper_camel_of(ms[i].0)).2).push(unimplemented_variant() + "(_) => Ok(None.into()),"@))
}

/// The views of some lines.
pub open spec fn lines_view(v: Seq<String>) -> Seq<Seq<char>> {
    v.map_values(|l: String| l@)
}

/// The lines of the generated response body's `is_end_stream`, `poll_buf`
/// and `poll_trailers` matches.
pub fn response_body_arms(methods: &[ServiceMethod]) -> (r: (Vec<String>, Vec<String>, Vec<String>))
    ensures
        (lines_view(r.0@), lines_view(r.1@), lines_view(r.2@)) == body_arms_of(methods_view(methods@)),
{
    let mut ends: Vec<String> = Vec::new();
    let mut bufs: Vec<String> = Vec::new();
    let mut trailers: Vec<String> = Vec::new();
    let mut i: usize = 0;
    while i < methods.len()
        invariant
            i <= methods@.len(),
            ends@.len() == i,
            bufs@.len() == i,
            trailers@.len() == i,
            forall|k: int| 0 <= k < i ==> (#[trigger] ends@[k])@ == body_lines_of(upper_camel_of(methods_view(methods@)[k].0)).0,
            forall|k: int| 0 <= k < i ==> (#[trigger] bufs@[k])@ == body_lines_of(upper_camel_of(methods_view(methods@)[k].0)).1,
            forall|k: int| 0 <= k < i ==> (#[trigger] trailers@[k])@ == body_lines_of(upper_camel_of(methods_view(methods@)[k].0)).2,
        decreases methods@.len() - i,
    {
        let upper = to_upper_camel(methods[i].proto_name.as_str());
        ends.push(cat2(upper.as_str(), "(ref v) => v.is_end_stream(),"));
        bufs.push(cat2(upper.as_str(), "(ref mut v) => v.poll_buf(),"));
        trailers.push(cat2(upper.as_str(), "(ref mut v) => v.poll_trailers(),"));
        i = i + 1;
    }
    ends.push(cat2("__Generated__Unimplemented", "(_) => true,"));
    bufs.push(cat2("__Generated__Unimplemented", "(_) => Ok(None.into()),"));
    trailers.push(cat2("__Generated__Unimplemented", "(_) => Ok(None.into()),"));
    proof {
        let e = body_arms_of(methods_view(methods@));
        assert(lines_view(ends@) =~= e.0);
        assert(lines_view(bufs@) =~= e.1);
        assert(lines_view(trailers@) =~= e.2);
    }
    (ends, bufs, trailers)
}

/// The request and response types of the generated service of one method,
/// seen three modules down: a streaming client's request carries a stream,
/// a streaming server's response carries the trait's stream type.
pub open spec fn service_method_types_of(m: (Seq<char>, Seq<char>, bool, bool), output: Seq<char>) -> (Seq<char>, Seq<char>) {
    let upper = upper_camel_of(m.0);
    let req = if m.2 { streaming_input_type_of(m.1, 3) } else { unqualified_path(m.1, 3) };
    let resp = if m.3 { "T::"@ + upper + "Stream"@ } else { unqualified_path(output, 3) };
    ("grpc::Request<"@ + req + ">"@, "grpc::Response<"@ + resp + ">"@)
}

/// The request and response types of the generated service of one method.
pub fn service_method_types(m: &ServiceMethod) -> (r: (String, String))
    ensures
        (r.0@, r.1@) == service_method_types_of(method_view(*m), m.output_type@),
{
    let req = if m.client_streaming {
        streaming_input_type(m.input_type.as_str(), 3)
    } else {
        unqualified(m.input_type.as_str(), 3)
    };
    let resp = if m.server_streaming {
        let upper = to_upper_camel(m.proto_name.as_str());
        cat3("T::", upper.as_str(), "Stream")
    } else {
        unqualified(m.output_type.as_str(), 3)
    };
    (cat3("grpc::Request<", req.as_str(), ">"), cat3("grpc::Response<", resp.as_str(), ">"))
}

/// The texts of the generated server struct of a service named `name`:
/// its name, the field that holds the service (the name in snake case),
/// the line of its constructor, the response and future types of its
/// `tower::Service` impl, the line that opens its `call`, and the catch-all
/// line for unknown paths.
pub struct ServerStructText {
    /// The struct's name.
    pub name: String,
    /// The field that holds the service.
    pub field: String,
    /// The constructor's line.
    pub new_line: String,
    /// The response type of its service impl.
    pub response: String,
    /// The future type of its service impl.
    pub future: String,
    /// The line that opens `call`.
    pub use_line: String,
    /// The catch-all arm's line.
    pub catch_all: String,
}

/// The texts of the generated server struct, as `ServerStructText` lists
/// them.
pub open spec fn server_struct_text_of(name: Seq<char>) -> (Seq<char>, Seq<char>, Seq<char>, Seq<char>, Seq<char>, Seq<char>, Seq<char>) {
    let lower = lower_name_of(name);
    (name + "Server"@,
     lower,
     "Self { "@ + lower + " }"@,
     "http::Response<"@ + lower + "::ResponseBody<T>>"@,
     lower + "::ResponseFuture<T>"@,
     "use self::"@ + lower + "::Kind::*;"@,
     lower + "::ResponseFuture { kind: "@ + unimplemented_variant()
        + "(grpc::unimplemented(format!(\"unknown service: {:?}\", request.uri().path()))) }"@)
}

/// The texts of the generated server struct of a service.
pub fn server_struct_text(name: &str) -> (r: ServerStructText)
    ensures
        (r.name@, r.field@, r.new_line@, r.response@, r.future@, r.use_line@, r.catch_all@) == server_struct_text_of(name@),
{
    let lower = lower_name(name);
    let catch_all = cat4(lower.as_str(), "::ResponseFuture { kind: ", "__Generated__Unimplemented",
        "(grpc::unimplemented(format!(\"unknown service: {:?}\", request.uri().path()))) }");
    ServerStructText {
        name: cat2(name, "Server"),
        field: owned(lower.as_str()),
        new_line: cat3("Self { ", lower.as_str(), " }"),
        response: cat3("http::Response<", lower.as_str(), "::ResponseBody<T>>"),
        future: cat2(lower.as_str(), "::ResponseFuture<T>"),
        use_line: cat3("use self::", lower.as_str(), "::Kind::*;"),
        catch_all,
    }
}

/// The request type of a service-trait method depends only on whether the
/// client streams: a streaming client's method takes a request holding a
/// `grpc::Streaming` of the input type, any other a request holding the
/// input type itself, both seen one module down; whether the server
/// streams changes nothing.
pub proof fn lemma_trait_request_type(proto_name: Seq<char>, input: Seq<char>, output: Seq<char>, cs: bool, ss: bool)
    ensures
        service_trait_text_of(proto_name, input, output, cs, ss).3 == service_trait_text_of(proto_name, input, output, cs, !ss).3,
        cs ==> service_trait_text_of(proto_name, input, output, cs, ss).3
            == "grpc::Request<grpc::Streaming<"@ + unqualified_path(input, 1) + ">>"@,
        !cs ==> service_trait_text_of(proto_name, input, output, cs, ss).3
            == "grpc::Request<"@ + unqualified_path(input, 1) + ">"@,
{
}

/// The function of `grpc::Grpc` that a generated client method of the
/// given kind calls, and whose response future it returns.
pub open spec fn client_call_fn(cs: bool, ss: bool) -> Seq<char> {
    match (cs, ss) {
        (false, false) => "unary"@,
        (false, true) => "server_streaming"@,
        (true, false) => "client_streaming"@,
        (true, true) => "streaming"@,
    }
}

/// A generated client method calls the function of `grpc::Grpc` of its
/// kind (unary, server streaming, client streaming or streaming) with the
/// request and the path, and its return type is the response future of
/// the module of that same function; a body that sends a call as one kind
/// while returning the future of another breaks this.
pub proof fn lemma_client_call_matches_future(input: Seq<char>, output: Seq<char>, cs: bool, ss: bool)
    ensures
        ({
            let t = client_method_text_of(input, output, cs, ss);
            let k = client_call_fn(cs, ss);
            let head = "grpc::"@ + k + "::ResponseFuture<"@;
            &&& t.1 == "self.inner."@ + k + "(request, path)"@
            &&& head.len() <= t.0.len()
            &&& t.0.subrange(0, head.len() as int) == head
            &&& (t.3 is Some <==> cs)
            &&& cs ==> t.2 == "B"@ && t.3 == Some("futures::Stream<Item = "@ + unqualified_path(input, 1) + ">"@)
            &&& !cs ==> t.2 == "grpc::unary::Once<"@ + unqualified_path(input, 1) + ">"@
        }),
{
    reveal_strlit("grpc::");
    reveal_strlit("::ResponseFuture<");
    reveal_strlit("self.inner.");
    reveal_strlit("(request, path)");
    reveal_strlit("unary");
    reveal_strlit("server_streaming");
    reveal_strlit("client_streaming");
    reveal_strlit("streaming");
    reveal_strlit("grpc::unary::ResponseFuture<");
    reveal_strlit("grpc::server_streaming::ResponseFuture<");
    reveal_strlit("grpc::client_streaming::ResponseFuture<");
    reveal_strlit("grpc::streaming::ResponseFuture<");
    reveal_strlit("self.inner.unary(request, path)");
    reveal_strlit("self.inner.server_streaming(request, path)");
    reveal_strlit("self.inner.client_streaming(request, path)");
    reveal_strlit("self.inner.streaming(request, path)");
    let t = client_method_text_of(input, output, cs, ss);
    let k = client_call_fn(cs, ss);
    let head = "grpc::"@ + k + "::ResponseFuture<"@;
    assert(t.1 =~= "self.inner."@ + k + "(request, path)"@);
    assert(t.0.subrange(0, head.len() as int) =~= head);
}

/// The generated server serves each method with the function of
/// `tower-grpc` of the same kind as the generated client calls, and hands
/// a streaming client's service over by mutable reference.
pub proof fn lemma_route_serves_kind(lower: Seq<char>, upper: Seq<char>, cs: bool, ss: bool)
    ensures
        route_lines_of(lower, upper, cs, ss)[1] == "let response = grpc::"@ + client_call_fn(cs, ss) + "("@
            + (if cs { "&mut service"@ } else { "service"@ }) + ", request);"@,
{
}

} // verus!
