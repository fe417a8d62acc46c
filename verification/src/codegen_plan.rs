//! The structure of the generated client and server code: which modules,
//! imports, structs, traits, impls, functions and lines the code generator
//! builds for a service, as a list of builder steps in the order `codegen`
//! is to be driven.
use vstd::prelude::*;

use crate::codegen_text::{
    body_arms_of, client_method_text, client_method_text_of, method_view, methods_view, poll_arms_of,
    response_body_arms, response_body_kind, response_body_kind_of, response_fut_kind, response_fut_kind_of,
    response_future_poll_arms, route_lines, route_lines_of, server_struct_text, server_struct_text_of,
    service_method_types, service_method_types_of, service_trait_text, service_trait_text_of,
    unimplemented_variant, ServiceMethod,
};
use crate::names::{
    chars_vec, is_imported_type, is_imported_type_path, join_path, method_path, method_path_of, push_all,
    split_path, split_path_exec, super_import, supers, to_upper_camel, unqualified, unqualified_path,
    upper_camel_of,
};

verus! {

/// A service, as the code generator reads it.
pub struct ServiceDesc {
    /// The service's Rust name.
    pub name: String,
    /// The service's name in the `.proto` file.
    pub proto_name: String,
    /// The package of the `.proto` file.
    pub package: String,
    /// The documentation of the service, from its comments.
    pub doc: String,
}

/// What a builder step does to the code being built. A step acts on the
/// innermost thing open: a function, else an item (struct, trait, enum or
/// impl), else a module.
#[derive(Clone, Copy, Debug, PartialEq, Eq, Structural)]
pub enum Op {
    /// Opens the top-level module named `a`, made or found again.
    TopModule,
    /// Opens a new module named `a` inside the open one.
    Module,
    /// Closes the open module.
    EndModule,
    /// Sets the visibility `a`.
    Vis,
    /// Imports `b` from the path `a` into the open module.
    Import,
    /// Adds the raw text `a` to the open module.
    Raw,
    /// Opens a struct named `a`.
    Struct,
    /// Opens a trait named `a`.
    Trait,
    /// Opens an enum named `a`.
    Enum,
    /// Opens an impl for the type `a`.
    Impl,
    /// Closes the open item and adds it to the open module.
    EndItem,
    /// Adds the generic parameter `a`.
    Generic,
    /// Adds the bound `b` on the parameter `a`.
    Bound,
    /// Adds the derive `a`.
    Derive,
    /// Adds the allow attribute `a`.
    Allow,
    /// Sets the documentation `a`.
    Doc,
    /// Adds the field `a` of type `b`.
    Field,
    /// Adds a tuple field of type `a`.
    TupleField,
    /// Adds the generic argument `a` to the impl's target.
    TargetGeneric,
    /// Makes the impl one of the trait `a`.
    ImplTrait,
    /// Sets the impl's associated type `a` to `b`.
    AssocType,
    /// Adds the parent trait `a`.
    Parent,
    /// Adds to the trait the associated type `a`, bounded by `b`.
    TraitType,
    /// Adds to the enum the variant `a` holding one `b`.
    Variant,
    /// Opens a function named `a`.
    Fn,
    /// Closes the open function and adds it to the open item.
    EndFn,
    /// Takes `self` by value.
    ArgSelf,
    /// Takes `&self`.
    ArgRefSelf,
    /// Takes `&mut self`.
    ArgMutSelf,
    /// Adds the argument `a` of type `b`.
    Arg,
    /// Sets the return type `a`.
    Ret,
    /// Adds the line `a` to the open block, or else to the function.
    Line,
    /// Opens a block headed `a`.
    Block,
    /// Closes the open block and adds it to the enclosing block or function.
    EndBlock,
}

/// One builder step: what it does and its two texts (empty where unused).
pub struct Step {
    /// What the step does.
    pub op: Op,
    /// The first text.
    pub a: String,
    /// The second text.
    pub b: String,
}

/// A step as plain values.
pub open spec fn step_view(s: Step) -> (Op, Seq<char>, Seq<char>) {
    (s.op, s.a@, s.b@)
}

/// Steps as plain values.
pub open spec fn steps_view(v: Seq<Step>) -> Seq<(Op, Seq<char>, Seq<char>)> {
    v.map_values(|s: Step| step_view(s))
}

/// Adds a step.
fn emit(v: &mut Vec<Step>, op: Op, a: &str, b: &str)
    ensures
        steps_view(final(v)@) == steps_view(old(v)@).push((op, a@, b@)),
{
    v.push(Step { op, a: a.to_owned(), b: b.to_owned() });
    assert(steps_view(v@) =~= steps_view(old(v)@).push((op, a@, b@)));
}

/// Adds the steps of `w` after those of `v`.
fn append_steps(v: &mut Vec<Step>, w: Vec<Step>)
    ensures
        steps_view(final(v)@) == steps_view(old(v)@) + steps_view(w@),
{
    let ghost w0 = w@;
    let mut w = w;
    v.append(&mut w);
    assert(steps_view(v@) =~= steps_view(old(v)@) + steps_view(w0));
}

/// A type path is imported where it is not seen from `super` and has a
/// path to import it from.
pub open spec fn should_import_path(ty: Seq<char>) -> bool {
    !is_imported_type_path(ty) && split_path(ty).len() > 1
}

/// The step that imports a type, seen from `level` modules down, where it
/// is to be imported.
pub open spec fn import_of(ty: Seq<char>, level: nat) -> Seq<(Op, Seq<char>, Seq<char>)> {
    if should_import_path(ty) {
        seq![(Op::Import, join_path((supers(level) + split_path(ty)).drop_last()), split_path(ty).last())]
    } else {
        Seq::empty()
    }
}

/// Whether a type path is to be imported.
pub fn should_import(ty: &str) -> (r: bool)
    ensures
        r == should_import_path(ty@),
{
    let chars = chars_vec(ty);
    let segs = split_path_exec(&chars);
    !is_imported_type(ty) && segs.len() > 1
}

/// Adds the step that imports a type, where it is to be imported.
fn emit_import(v: &mut Vec<Step>, ty: &str, level: usize)
    ensures
        steps_view(final(v)@) == steps_view(old(v)@) + import_of(ty@, level as nat),
{
    if should_import(ty) {
        let (path, name) = super_import(ty, level);
        emit(v, Op::Import, path.as_str(), name.as_str());
    } else {
        assert(steps_view(v@) =~= steps_view(v@) + import_of(ty@, level as nat));
    }
}

/// The imports of the message types of the methods, seen one module down.
pub open spec fn message_imports_of(ms: Seq<ServiceMethod>) -> Seq<(Op, Seq<char>, Seq<char>)>
    decreases ms.len(),
{
    if ms.len() == 0 {
        Seq::empty()
    } else {
        message_imports_of(ms.drop_last()) + import_of(ms.last().input_type@, 1) + import_of(ms.last().output_type@, 1)
    }
}

/// The imports of the message types of the methods, seen one module down.
fn message_imports(ms: &[ServiceMethod]) -> (r: Vec<Step>)
    ensures
        steps_view(r@) == message_imports_of(ms@),
{
    let mut v: Vec<Step> = Vec::new();
    let mut i: usize = 0;
    while i < ms.len()
        invariant
            i <= ms@.len(),
            steps_view(v@) == message_imports_of(ms@.take(i as int)),
        decreases ms@.len() - i,
    {
        proof {
            assert(ms@.take(i + 1).drop_last() =~= ms@.take(i as int));
            assert(ms@.take(i + 1).last() == ms@[i as int]);
        }
        emit_import(&mut v, ms[i].input_type.as_str(), 1);
        emit_import(&mut v, ms[i].output_type.as_str(), 1);
        i = i + 1;
    }
    assert(ms@.take(ms@.len() as int) =~= ms@);
    v
}

// ===== The client =====

/// The client struct of a service and the start of its impl.
pub open spec fn client_struct_of(svc: ServiceDesc) -> Seq<(Op, Seq<char>, Seq<char>)> {
    seq![
        (Op::Struct, svc.name@, ""@),
        (Op::Vis, "pub"@, ""@),
        (Op::Generic, "T"@, ""@),
        (Op::Derive, "Debug"@, ""@),
        (Op::Derive, "Clone"@, ""@),
        (Op::Doc, svc.doc@, ""@),
        (Op::Field, "inner"@, "grpc::Grpc<T>"@),
        (Op::EndItem, ""@, ""@),
        (Op::Impl, svc.name@, ""@),
        (Op::Generic, "T"@, ""@),
        (Op::TargetGeneric, "T"@, ""@),
    ]
}

/// The client struct of a service and the start of its impl.
fn client_struct(svc: &ServiceDesc) -> (r: Vec<Step>)
    ensures
        steps_view(r@) == client_struct_of(*svc),
{
    let mut v: Vec<Step> = Vec::new();
    emit(&mut v, Op::Struct, svc.name.as_str(), "");
    emit(&mut v, Op::Vis, "pub", "");
    emit(&mut v, Op::Generic, "T", "");
    emit(&mut v, Op::Derive, "Debug", "");
    emit(&mut v, Op::Derive, "Clone", "");
    emit(&mut v, Op::Doc, svc.doc.as_str(), "");
    emit(&mut v, Op::Field, "inner", "grpc::Grpc<T>");
    emit(&mut v, Op::EndItem, "", "");
    emit(&mut v, Op::Impl, svc.name.as_str(), "");
    emit(&mut v, Op::Generic, "T", "");
    emit(&mut v, Op::TargetGeneric, "T", "");
    assert(steps_view(v@) =~= client_struct_of(*svc));
    v
}

/// The functions every client has: `new`, `poll_ready` and `ready`.
pub open spec fn client_fixed_fns_of() -> Seq<(Op, Seq<char>, Seq<char>)> {
    seq![
        (Op::Fn, "new"@, ""@),
        (Op::Vis, "pub"@, ""@),
        (Op::Arg, "inner"@, "T"@),
        (Op::Ret, "Self"@, ""@),
        (Op::Line, "let inner = grpc::Grpc::new(inner);"@, ""@),
        (Op::Line, "Self { inner }"@, ""@),
        (Op::EndFn, ""@, ""@),
        (Op::Fn, "poll_ready"@, ""@),
        (Op::Doc, "Poll whether this client is ready to send another request."@, ""@),
        (Op::Generic, "R"@, ""@),
        (Op::Bound, "T"@, "grpc::GrpcService<R>"@),
        (Op::Vis, "pub"@, ""@),
        (Op::ArgMutSelf, ""@, ""@),
        (Op::Ret, "futures::Poll<(), grpc::Status>"@, ""@),
        (Op::Line, "self.inner.poll_ready()"@, ""@),
        (Op::EndFn, ""@, ""@),
        (Op::Fn, "ready"@, ""@),
        (Op::Doc, "Get a `Future` of when this client is ready to send another request."@, ""@),
        (Op::Generic, "R"@, ""@),
        (Op::Bound, "T"@, "grpc::GrpcService<R>"@),
        (Op::Vis, "pub"@, ""@),
        (Op::ArgSelf, ""@, ""@),
        (Op::Ret, "impl futures::Future<Item = Self, Error = grpc::Status>"@, ""@),
        (Op::Line, "futures::Future::map(self.inner.ready(), |inner| Self { inner })"@, ""@),
        (Op::EndFn, ""@, ""@),
    ]
}

/// The functions every client has.
fn client_fixed_fns() -> (r: Vec<Step>)
    ensures
        steps_view(r@) == client_fixed_fns_of(),
{
    let mut v: Vec<Step> = Vec::new();
    emit(&mut v, Op::Fn, "new", "");
    emit(&mut v, Op::Vis, "pub", "");
    emit(&mut v, Op::Arg, "inner", "T");
    emit(&mut v, Op::Ret, "Self", "");
    emit(&mut v, Op::Line, "let inner = grpc::Grpc::new(inner);", "");
    emit(&mut v, Op::Line, "Self { inner }", "");
    emit(&mut v, Op::EndFn, "", "");
    emit(&mut v, Op::Fn, "poll_ready", "");
    emit(&mut v, Op::Doc, "Poll whether this client is ready to send another request.", "");
    emit(&mut v, Op::Generic, "R", "");
    emit(&mut v, Op::Bound, "T", "grpc::GrpcService<R>");
    emit(&mut v, Op::Vis, "pub", "");
    emit(&mut v, Op::ArgMutSelf, "", "");
    emit(&mut v, Op::Ret, "futures::Poll<(), grpc::Status>", "");
    emit(&mut v, Op::Line, "self.inner.poll_ready()", "");
    emit(&mut v, Op::EndFn, "", "");
    emit(&mut v, Op::Fn, "ready", "");
    emit(&mut v, Op::Doc, "Get a `Future` of when this client is ready to send another request.", "");
    emit(&mut v, Op::Generic, "R", "");
    emit(&mut v, Op::Bound, "T", "grpc::GrpcService<R>");
    emit(&mut v, Op::Vis, "pub", "");
    emit(&mut v, Op::ArgSelf, "", "");
    emit(&mut v, Op::Ret, "impl futures::Future<Item = Self, Error = grpc::Status>", "");
    emit(&mut v, Op::Line, "futures::Future::map(self.inner.ready(), |inner| Self { inner })", "");
    emit(&mut v, Op::EndFn, "", "");
    assert(steps_view(v@) =~= client_fixed_fns_of());
    v
}

/// The client function of one method: it takes the request, names the
/// method's path, and makes the call of the method's kind; a streaming
/// client's request body is a stream `B` of the input type.
pub open spec fn client_method_of(svc: ServiceDesc, m: ServiceMethod) -> Seq<(Op, Seq<char>, Seq<char>)> {
    let t = client_method_text_of(m.input_type@, m.output_type@, m.client_streaming, m.server_streaming);
    let path = method_path_of(svc.package@, svc.proto_name@, m.proto_name@);
    let head = seq![
        (Op::Fn, m.name@, ""@),
        (Op::Vis, "pub"@, ""@),
        (Op::Generic, "R"@, ""@),
        (Op::Bound, "T"@, "grpc::GrpcService<R>"@),
        (Op::ArgMutSelf, ""@, ""@),
        (Op::Line, "let path = http::PathAndQuery::from_static("@ + path + ");"@, ""@),
        (Op::Doc, svc.doc@, ""@),
    ];
    let stream = match t.3 {
        Some(b) => seq![(Op::Generic, "B"@, ""@), (Op::Bound, "B"@, b)],
        None => Seq::empty(),
    };
    let request = match t.3 {
        Some(_) => "grpc::Request<B>"@,
        None => "grpc::Request<"@ + unqualified_path(m.input_type@, 1) + ">"@,
    };
    head + stream + seq![
        (Op::Ret, t.0, ""@),
        (Op::Line, t.1, ""@),
        (Op::Arg, "request"@, request),
        (Op::Bound, t.2, "grpc::Encodable<R>"@),
        (Op::EndFn, ""@, ""@),
    ]
}

/// A string of three parts.
fn cat3(a: &str, b: &str, c: &str) -> (r: String)
    ensures
        r@ == a@ + b@ + c@,
{
    let mut r = String::new();
    push_all(&mut r, a);
    push_all(&mut r, b);
    push_all(&mut r, c);
    assert(r@ =~= a@ + b@ + c@);
    r
}

/// The client function of one method.
fn client_method(svc: &ServiceDesc, m: &ServiceMethod) -> (r: Vec<Step>)
    ensures
        steps_view(r@) == client_method_of(*svc, *m),
{
    let t = client_method_text(m);
    let path = method_path(svc.package.as_str(), svc.proto_name.as_str(), m.proto_name.as_str());
    let path_line = cat3("let path = http::PathAndQuery::from_static(", path.as_str(), ");");
    let mut v: Vec<Step> = Vec::new();
    emit(&mut v, Op::Fn, m.name.as_str(), "");
    emit(&mut v, Op::Vis, "pub", "");
    emit(&mut v, Op::Generic, "R", "");
    emit(&mut v, Op::Bound, "T", "grpc::GrpcService<R>");
    emit(&mut v, Op::ArgMutSelf, "", "");
    emit(&mut v, Op::Line, path_line.as_str(), "");
    emit(&mut v, Op::Doc, svc.doc.as_str(), "");
    let ghost head = steps_view(v@);
    let request = match &t.stream_bound {
        Some(b) => {
            emit(&mut v, Op::Generic, "B", "");
            emit(&mut v, Op::Bound, "B", b.as_str());
            cat3("grpc::Request<", "B", ">")
        },
        None => {
            let i = unqualified(m.input_type.as_str(), 1);
            cat3("grpc::Request<", i.as_str(), ">")
        },
    };
    let ghost mid = steps_view(v@);
    emit(&mut v, Op::Ret, t.ret.as_str(), "");
    emit(&mut v, Op::Line, t.call.as_str(), "");
    emit(&mut v, Op::Arg, "request", request.as_str());
    emit(&mut v, Op::Bound, t.body.as_str(), "grpc::Encodable<R>");
    emit(&mut v, Op::EndFn, "", "");
    proof {
        reveal_strlit("B");
        reveal_strlit("grpc::Request<");
        reveal_strlit(">");
        reveal_strlit("grpc::Request<B>");
        let spec_t = client_method_text_of(m.input_type@, m.output_type@, m.client_streaming, m.server_streaming);
        let path_s = method_path_of(svc.package@, svc.proto_name@, m.proto_name@);
        assert(head =~= seq![
            (Op::Fn, m.name@, ""@),
            (Op::Vis, "pub"@, ""@),
            (Op::Generic, "R"@, ""@),
            (Op::Bound, "T"@, "grpc::GrpcService<R>"@),
            (Op::ArgMutSelf, ""@, ""@),
            (Op::Line, "let path = http::PathAndQuery::from_static("@ + path_s + ");"@, ""@),
            (Op::Doc, svc.doc@, ""@),
        ]);
        match spec_t.3 {
            Some(b) => {
                assert("grpc::Request<"@ + "B"@ + ">"@ =~= "grpc::Request<B>"@);
                assert(mid =~= head + seq![(Op::Generic, "B"@, ""@), (Op::Bound, "B"@, b)]);
            },
            None => {
                assert(mid =~= head + Seq::<(Op, Seq<char>, Seq<char>)>::empty());
            },
        }
        assert(steps_view(v@) =~= client_method_of(*svc, *m));
    }
    v
}

/// The client functions of the methods, in order.
pub open spec fn client_methods_of(svc: ServiceDesc, ms: Seq<ServiceMethod>) -> Seq<(Op, Seq<char>, Seq<char>)>
    decreases ms.len(),
{
    if ms.len() == 0 {
        Seq::empty()
    } else {
        client_methods_of(svc, ms.drop_last()) + client_method_of(svc, ms.last())
    }
}

/// The client functions of the methods, in order.
fn client_methods(svc: &ServiceDesc, ms: &[ServiceMethod]) -> (r: Vec<Step>)
    ensures
        steps_view(r@) == client_methods_of(*svc, ms@),
{
    let mut v: Vec<Step> = Vec::new();
    let mut i: usize = 0;
    while i < ms.len()
        invariant
            i <= ms@.len(),
            steps_view(v@) == client_methods_of(*svc, ms@.take(i as int)),
        decreases ms@.len() - i,
    {
        proof {
            assert(ms@.take(i + 1).drop_last() =~= ms@.take(i as int));
            assert(ms@.take(i + 1).last() == ms@[i as int]);
        }
        let w = client_method(svc, &ms[i]);
        append_steps(&mut v, w);
        i = i + 1;
    }
    assert(ms@.take(ms@.len() as int) =~= ms@);
    v
}

/// The generated client of a service: in the top-level module `client`,
/// which imports the client support of `tower-grpc` and the message types,
/// a struct named after the service that holds a `grpc::Grpc`, with `new`,
/// `poll_ready`, `ready`, and one function per method.
pub open spec fn client_plan_of(svc: ServiceDesc, ms: Seq<ServiceMethod>) -> Seq<(Op, Seq<char>, Seq<char>)> {
    seq![
        (Op::TopModule, "client"@, ""@),
        (Op::Vis, "pub"@, ""@),
        (Op::Import, "::tower_grpc::codegen::client"@, "*"@),
    ] + message_imports_of(ms) + client_struct_of(svc) + client_fixed_fns_of() + client_methods_of(svc, ms)
        + seq![(Op::EndItem, ""@, ""@), (Op::EndModule, ""@, ""@)]
}

/// The builder steps of the generated client of a service.
pub fn client_plan(svc: &ServiceDesc, ms: &[ServiceMethod]) -> (r: Vec<Step>)
    ensures
        steps_view(r@) == client_plan_of(*svc, ms@),
{
    let mut v: Vec<Step> = Vec::new();
    emit(&mut v, Op::TopModule, "client", "");
    emit(&mut v, Op::Vis, "pub", "");
    emit(&mut v, Op::Import, "::tower_grpc::codegen::client", "*");
    let ghost start = steps_view(v@);
    assert(start =~= seq![
        (Op::TopModule, "client"@, ""@),
        (Op::Vis, "pub"@, ""@),
        (Op::Import, "::tower_grpc::codegen::client"@, "*"@),
    ]);
    append_steps(&mut v, message_imports(ms));
    append_steps(&mut v, client_struct(svc));
    append_steps(&mut v, client_fixed_fns());
    append_steps(&mut v, client_methods(svc, ms));
    let ghost body = steps_view(v@);
    emit(&mut v, Op::EndItem, "", "");
    emit(&mut v, Op::EndModule, "", "");
    assert(steps_view(v@) =~= body + seq![(Op::EndItem, ""@, ""@), (Op::EndModule, ""@, ""@)]);
    v
}

// ===== The server =====

/// The text of the `try_ready` macro, written into the generated server so
/// that its users need not import it.
pub open spec fn try_ready_text() -> Seq<char> {
    "// Redefine the try_ready macro so that it doesn't need to be explicitly\n// imported by the user of this generated code.\nmacro_rules! try_ready {\n    ($e:expr) => (match $e {\n        Ok(futures::Async::Ready(t)) => t,\n        Ok(futures::Async::NotReady) => return Ok(futures::Async::NotReady),\n        Err(e) => return Err(From::from(e)),\n    })\n}"@
}

/// Lines, as steps.
pub open spec fn lines_of(ls: Seq<Seq<char>>) -> Seq<(Op, Seq<char>, Seq<char>)> {
    Seq::new(ls.len(), |i: int| (Op::Line, ls[i], ""@))
}

/// Adds lines.
fn emit_lines(v: &mut Vec<Step>, ls: &Vec<String>)
    ensures
        steps_view(final(v)@) == steps_view(old(v)@) + lines_of(ls@.map_values(|l: String| l@)),
{
    let ghost v0 = steps_view(v@);
    let ghost lv = ls@.map_values(|l: String| l@);
    let mut i: usize = 0;
    while i < ls.len()
        invariant
            i <= ls@.len(),
            lv == ls@.map_values(|l: String| l@),
            steps_view(v@) == v0 + lines_of(lv.take(i as int)),
        decreases ls@.len() - i,
    {
        emit(v, Op::Line, ls[i].as_str(), "");
        proof {
            assert(lines_of(lv.take(i + 1)) =~= lines_of(lv.take(i as int)).push((Op::Line, lv[i as int], ""@)));
        }
        i = i + 1;
    }
    assert(lv.take(ls@.len() as int) =~= lv);
}

/// A block headed `head` holding the lines.
pub open spec fn block_of(head: Seq<char>, ls: Seq<Seq<char>>) -> Seq<(Op, Seq<char>, Seq<char>)> {
    seq![(Op::Block, head, ""@)] + lines_of(ls) + seq![(Op::EndBlock, ""@, ""@)]
}

/// Adds a block headed `head` holding the lines.
fn emit_block(v: &mut Vec<Step>, head: &str, ls: &Vec<String>)
    ensures
        steps_view(final(v)@) == steps_view(old(v)@) + block_of(head@, ls@.map_values(|l: String| l@)),
{
    let ghost v0 = steps_view(v@);
    emit(v, Op::Block, head, "");
    emit_lines(v, ls);
    let ghost v1 = steps_view(v@);
    emit(v, Op::EndBlock, "", "");
    assert(steps_view(v@) =~= v0 + block_of(head@, ls@.map_values(|l: String| l@)));
}

/// One method of the service trait: the associated types of its future
/// (and of its stream, where the server streams), and the function.
pub open spec fn trait_method_of(m: ServiceMethod) -> Seq<(Op, Seq<char>, Seq<char>)> {
    let t = service_trait_text_of(m.proto_name@, m.input_type@, m.output_type@, m.client_streaming, m.server_streaming);
    let stream = match t.2 {
        Some(p) => seq![(Op::TraitType, p.0, p.1)],
        None => Seq::empty(),
    };
    stream + seq![
        (Op::TraitType, t.0, t.1),
        (Op::Fn, m.name@, ""@),
        (Op::ArgMutSelf, ""@, ""@),
        (Op::Arg, "request"@, t.3),
        (Op::Ret, "Self::"@ + t.0, ""@),
        (Op::Doc, m.doc@, ""@),
        (Op::EndFn, ""@, ""@),
    ]
}

/// A string of two parts.
fn cat2(a: &str, b: &str) -> (r: String)
    ensures
        r@ == a@ + b@,
{
    let mut r = String::new();
    push_all(&mut r, a);
    push_all(&mut r, b);
    assert(r@ =~= a@ + b@);
    r
}

/// One method of the service trait.
fn trait_method(m: &ServiceMethod) -> (r: Vec<Step>)
    ensures
        steps_view(r@) == trait_method_of(*m),
{
    let t = service_trait_text(m);
    let mut v: Vec<Step> = Vec::new();
    match &t.stream {
        Some(p) => emit(&mut v, Op::TraitType, p.0.as_str(), p.1.as_str()),
        None => {},
    }
    let ghost head = steps_view(v@);
    let ret = cat2("Self::", t.future_name.as_str());
    emit(&mut v, Op::TraitType, t.future_name.as_str(), t.future_bound.as_str());
    emit(&mut v, Op::Fn, m.name.as_str(), "");
    emit(&mut v, Op::ArgMutSelf, "", "");
    emit(&mut v, Op::Arg, "request", t.request_type.as_str());
    emit(&mut v, Op::Ret, ret.as_str(), "");
    emit(&mut v, Op::Doc, m.doc.as_str(), "");
    emit(&mut v, Op::EndFn, "", "");
    proof {
        let st = service_trait_text_of(m.proto_name@, m.input_type@, m.output_type@, m.client_streaming, m.server_streaming);
        match st.2 {
            Some(p) => assert(head =~= seq![(Op::TraitType, p.0, p.1)]),
            None => assert(head =~= Seq::<(Op, Seq<char>, Seq<char>)>::empty()),
        }
        assert(steps_view(v@) =~= trait_method_of(*m));
    }
    v
}

/// The methods of the service trait, in order.
pub open spec fn trait_methods_of(ms: Seq<ServiceMethod>) -> Seq<(Op, Seq<char>, Seq<char>)>
    decreases ms.len(),
{
    if ms.len() == 0 {
        Seq::empty()
    } else {
        trait_methods_of(ms.drop_last()) + trait_method_of(ms.last())
    }
}

/// The methods of the service trait, in order.
fn trait_methods(ms: &[ServiceMethod]) -> (r: Vec<Step>)
    ensures
        steps_view(r@) == trait_methods_of(ms@),
{
    let mut v: Vec<Step> = Vec::new();
    let mut i: usize = 0;
    while i < ms.len()
        invariant
            i <= ms@.len(),
            steps_view(v@) == trait_methods_of(ms@.take(i as int)),
        decreases ms@.len() - i,
    {
        proof {
            assert(ms@.take(i + 1).drop_last() =~= ms@.take(i as int));
            assert(ms@.take(i + 1).last() == ms@[i as int]);
        }
        append_steps(&mut v, trait_method(&ms[i]));
        i = i + 1;
    }
    assert(ms@.take(ms@.len() as int) =~= ms@);
    v
}

/// The start of the server module and the service trait: the module
/// imports the server support of `tower-grpc` and holds the `try_ready`
/// macro and the message types' imports; the trait, named after the
/// service, is `Clone` and has one function per method.
pub open spec fn server_trait_of(svc: ServiceDesc, ms: Seq<ServiceMethod>) -> Seq<(Op, Seq<char>, Seq<char>)> {
    seq![
        (Op::TopModule, "server"@, ""@),
        (Op::Vis, "pub"@, ""@),
        (Op::Import, "::tower_grpc::codegen::server"@, "*"@),
        (Op::Raw, try_ready_text(), ""@),
    ] + message_imports_of(ms) + seq![
        (Op::Trait, svc.name@, ""@),
        (Op::Vis, "pub"@, ""@),
        (Op::Parent, "Clone"@, ""@),
        (Op::Doc, svc.doc@, ""@),
    ] + trait_methods_of(ms) + seq![(Op::EndItem, ""@, ""@)]
}

/// The start of the server module and the service trait.
fn server_trait(svc: &ServiceDesc, ms: &[ServiceMethod]) -> (r: Vec<Step>)
    ensures
        steps_view(r@) == server_trait_of(*svc, ms@),
{
    let mut v: Vec<Step> = Vec::new();
    emit(&mut v, Op::TopModule, "server", "");
    emit(&mut v, Op::Vis, "pub", "");
    emit(&mut v, Op::Import, "::tower_grpc::codegen::server", "*");
    emit(&mut v, Op::Raw, "// Redefine the try_ready macro so that it doesn't need to be explicitly\n// imported by the user of this generated code.\nmacro_rules! try_ready {\n    ($e:expr) => (match $e {\n        Ok(futures::Async::Ready(t)) => t,\n        Ok(futures::Async::NotReady) => return Ok(futures::Async::NotReady),\n        Err(e) => return Err(From::from(e)),\n    })\n}", "");
    let ghost a = steps_view(v@);
    assert(a =~= seq![
        (Op::TopModule, "server"@, ""@),
        (Op::Vis, "pub"@, ""@),
        (Op::Import, "::tower_grpc::codegen::server"@, "*"@),
        (Op::Raw, try_ready_text(), ""@),
    ]);
    append_steps(&mut v, message_imports(ms));
    let ghost b = steps_view(v@);
    emit(&mut v, Op::Trait, svc.name.as_str(), "");
    emit(&mut v, Op::Vis, "pub", "");
    emit(&mut v, Op::Parent, "Clone", "");
    emit(&mut v, Op::Doc, svc.doc.as_str(), "");
    assert(steps_view(v@) =~= b + seq![
        (Op::Trait, svc.name@, ""@),
        (Op::Vis, "pub"@, ""@),
        (Op::Parent, "Clone"@, ""@),
        (Op::Doc, svc.doc@, ""@),
    ]);
    append_steps(&mut v, trait_methods(ms));
    let ghost c = steps_view(v@);
    emit(&mut v, Op::EndItem, "", "");
    assert(steps_view(v@) =~= c + seq![(Op::EndItem, ""@, ""@)]);
    v
}

/// The arm of the server's `call` that routes one method: matched by the
/// method's path, it serves the request as the method's kind says.
pub open spec fn route_of(svc: ServiceDesc, m: ServiceMethod) -> Seq<(Op, Seq<char>, Seq<char>)> {
    let lower = server_struct_text_of(svc.name@).1;
    block_of(method_path_of(svc.package@, svc.proto_name@, m.proto_name@) + " =>"@,
        route_lines_of(lower, upper_camel_of(m.proto_name@), m.client_streaming, m.server_streaming))
}

/// The routes of the methods, in order.
pub open spec fn routes_of(svc: ServiceDesc, ms: Seq<ServiceMethod>) -> Seq<(Op, Seq<char>, Seq<char>)>
    decreases ms.len(),
{
    if ms.len() == 0 {
        Seq::empty()
    } else {
        routes_of(svc, ms.drop_last()) + route_of(svc, ms.last())
    }
}

/// The routes of the methods, in order.
fn routes(svc: &ServiceDesc, lower: &str, ms: &[ServiceMethod]) -> (r: Vec<Step>)
    requires
        lower@ == server_struct_text_of(svc.name@).1,
    ensures
        steps_view(r@) == routes_of(*svc, ms@),
{
    let mut v: Vec<Step> = Vec::new();
    let mut i: usize = 0;
    while i < ms.len()
        invariant
            i <= ms@.len(),
            lower@ == server_struct_text_of(svc.name@).1,
            steps_view(v@) == routes_of(*svc, ms@.take(i as int)),
        decreases ms@.len() - i,
    {
        proof {
            assert(ms@.take(i + 1).drop_last() =~= ms@.take(i as int));
            assert(ms@.take(i + 1).last() == ms@[i as int]);
        }
        let m = &ms[i];
        let upper = to_upper_camel(m.proto_name.as_str());
        let path = method_path(svc.package.as_str(), svc.proto_name.as_str(), m.proto_name.as_str());
        let head = cat2(path.as_str(), " =>");
        let lines = route_lines(lower, upper.as_str(), m.client_streaming, m.server_streaming);
        proof {
            let want = route_lines_of(lower@, upper@, m.client_streaming, m.server_streaming);
            assert(lines@.map_values(|l: String| l@) =~= want);
        }
        emit_block(&mut v, head.as_str(), &lines);
        i = i + 1;
    }
    assert(ms@.take(ms@.len() as int) =~= ms@);
    v
}

/// The server struct, named after the service, which holds the service in
/// a field named after it in snake case; its constructor; and its
/// `tower::Service` impl for HTTP requests, whose `call` routes each
/// method's path, and answers any other path as unimplemented.
pub open spec fn server_struct_of(svc: ServiceDesc, ms: Seq<ServiceMethod>) -> Seq<(Op, Seq<char>, Seq<char>)> {
    let t = server_struct_text_of(svc.name@);
    seq![
        (Op::Struct, t.0, ""@),
        (Op::Vis, "pub"@, ""@),
        (Op::Derive, "Debug"@, ""@),
        (Op::Derive, "Clone"@, ""@),
        (Op::Generic, "T"@, ""@),
        (Op::Field, t.1, "T"@),
        (Op::EndItem, ""@, ""@),
        (Op::Impl, t.0, ""@),
        (Op::Generic, "T"@, ""@),
        (Op::TargetGeneric, "T"@, ""@),
        (Op::Bound, "T"@, svc.name@),
        (Op::Fn, "new"@, ""@),
        (Op::Vis, "pub"@, ""@),
        (Op::Arg, t.1, "T"@),
        (Op::Ret, "Self"@, ""@),
        (Op::Line, t.2, ""@),
        (Op::EndFn, ""@, ""@),
        (Op::EndItem, ""@, ""@),
        (Op::Impl, t.0, ""@),
        (Op::ImplTrait, "tower::Service<http::Request<grpc::BoxBody>>"@, ""@),
        (Op::Generic, "T"@, ""@),
        (Op::TargetGeneric, "T"@, ""@),
        (Op::Bound, "T"@, svc.name@),
        (Op::AssocType, "Response"@, t.3),
        (Op::AssocType, "Error"@, "grpc::Never"@),
        (Op::AssocType, "Future"@, t.4),
        (Op::Fn, "poll_ready"@, ""@),
        (Op::ArgMutSelf, ""@, ""@),
        (Op::Ret, "futures::Poll<(), Self::Error>"@, ""@),
        (Op::Line, "Ok(().into())"@, ""@),
        (Op::EndFn, ""@, ""@),
        (Op::Fn, "call"@, ""@),
        (Op::ArgMutSelf, ""@, ""@),
        (Op::Arg, "request"@, "http::Request<grpc::BoxBody>"@),
        (Op::Ret, "Self::Future"@, ""@),
        (Op::Line, t.5, ""@),
        (Op::Line, ""@, ""@),
        (Op::Block, "match request.uri().path()"@, ""@),
    ] + routes_of(svc, ms) + seq![
        (Op::Block, "_ =>"@, ""@),
        (Op::Line, t.6, ""@),
        (Op::EndBlock, ""@, ""@),
        (Op::EndBlock, ""@, ""@),
        (Op::EndFn, ""@, ""@),
        (Op::EndItem, ""@, ""@),
    ]
}

/// The server struct, its constructor and its service impl.
fn server_struct(svc: &ServiceDesc, ms: &[ServiceMethod]) -> (r: Vec<Step>)
    ensures
        steps_view(r@) == server_struct_of(*svc, ms@),
{
    let t = server_struct_text(svc.name.as_str());
    let name = svc.name.as_str();
    let mut v: Vec<Step> = Vec::new();
    emit(&mut v, Op::Struct, t.name.as_str(), "");
    emit(&mut v, Op::Vis, "pub", "");
    emit(&mut v, Op::Derive, "Debug", "");
    emit(&mut v, Op::Derive, "Clone", "");
    emit(&mut v, Op::Generic, "T", "");
    emit(&mut v, Op::Field, t.field.as_str(), "T");
    emit(&mut v, Op::EndItem, "", "");
    emit(&mut v, Op::Impl, t.name.as_str(), "");
    emit(&mut v, Op::Generic, "T", "");
    emit(&mut v, Op::TargetGeneric, "T", "");
    emit(&mut v, Op::Bound, "T", name);
    emit(&mut v, Op::Fn, "new", "");
    emit(&mut v, Op::Vis, "pub", "");
    emit(&mut v, Op::Arg, t.field.as_str(), "T");
    emit(&mut v, Op::Ret, "Self", "");
    emit(&mut v, Op::Line, t.new_line.as_str(), "");
    emit(&mut v, Op::EndFn, "", "");
    emit(&mut v, Op::EndItem, "", "");
    emit(&mut v, Op::Impl, t.name.as_str(), "");
    emit(&mut v, Op::ImplTrait, "tower::Service<http::Request<grpc::BoxBody>>", "");
    emit(&mut v, Op::Generic, "T", "");
    emit(&mut v, Op::TargetGeneric, "T", "");
    emit(&mut v, Op::Bound, "T", name);
    emit(&mut v, Op::AssocType, "Response", t.response.as_str());
    emit(&mut v, Op::AssocType, "Error", "grpc::Never");
    emit(&mut v, Op::AssocType, "Future", t.future.as_str());
    emit(&mut v, Op::Fn, "poll_ready", "");
    emit(&mut v, Op::ArgMutSelf, "", "");
    emit(&mut v, Op::Ret, "futures::Poll<(), Self::Error>", "");
    emit(&mut v, Op::Line, "Ok(().into())", "");
    emit(&mut v, Op::EndFn, "", "");
    emit(&mut v, Op::Fn, "call", "");
    emit(&mut v, Op::ArgMutSelf, "", "");
    emit(&mut v, Op::Arg, "request", "http::Request<grpc::BoxBody>");
    emit(&mut v, Op::Ret, "Self::Future", "");
    emit(&mut v, Op::Line, t.use_line.as_str(), "");
    emit(&mut v, Op::Line, "", "");
    emit(&mut v, Op::Block, "match request.uri().path()", "");
    let ghost a = steps_view(v@);
    append_steps(&mut v, routes(svc, t.field.as_str(), ms));
    let ghost b = steps_view(v@);
    emit(&mut v, Op::Block, "_ =>", "");
    emit(&mut v, Op::Line, t.catch_all.as_str(), "");
    emit(&mut v, Op::EndBlock, "", "");
    emit(&mut v, Op::EndBlock, "", "");
    emit(&mut v, Op::EndFn, "", "");
    emit(&mut v, Op::EndItem, "", "");
    proof {
        let st = server_struct_text_of(svc.name@);
        assert(a =~= server_struct_of(*svc, ms@).take(38));
        assert(server_struct_of(*svc, ms@) =~= a + routes_of(*svc, ms@) + seq![
            (Op::Block, "_ =>"@, ""@),
            (Op::Line, st.6, ""@),
            (Op::EndBlock, ""@, ""@),
            (Op::EndBlock, ""@, ""@),
            (Op::EndFn, ""@, ""@),
            (Op::EndItem, ""@, ""@),
        ]);
        assert(steps_view(v@) =~= server_struct_of(*svc, ms@));
    }
    v
}

/// The server makes itself as a service: `tower::Service<()>` answers
/// each call with a clone of the server.
pub open spec fn make_service_of(svc: ServiceDesc) -> Seq<(Op, Seq<char>, Seq<char>)> {
    let t = server_struct_text_of(svc.name@);
    seq![
        (Op::Impl, t.0, ""@),
        (Op::Generic, "T"@, ""@),
        (Op::TargetGeneric, "T"@, ""@),
        (Op::ImplTrait, "tower::Service<()>"@, ""@),
        (Op::Bound, "T"@, svc.name@),
        (Op::AssocType, "Response"@, "Self"@),
        (Op::AssocType, "Error"@, "grpc::Never"@),
        (Op::AssocType, "Future"@, "futures::FutureResult<Self::Response, Self::Error>"@),
        (Op::Fn, "poll_ready"@, ""@),
        (Op::ArgMutSelf, ""@, ""@),
        (Op::Ret, "futures::Poll<(), Self::Error>"@, ""@),
        (Op::Line, "Ok(futures::Async::Ready(()))"@, ""@),
        (Op::EndFn, ""@, ""@),
        (Op::Fn, "call"@, ""@),
        (Op::ArgMutSelf, ""@, ""@),
        (Op::Arg, "_target"@, "()"@),
        (Op::Ret, "Self::Future"@, ""@),
        (Op::Line, "futures::ok(self.clone())"@, ""@),
        (Op::EndFn, ""@, ""@),
        (Op::EndItem, ""@, ""@),
    ]
}

/// The server's impl of `tower::Service<()>`.
fn make_service(svc: &ServiceDesc) -> (r: Vec<Step>)
    ensures
        steps_view(r@) == make_service_of(*svc),
{
    let t = server_struct_text(svc.name.as_str());
    let mut v: Vec<Step> = Vec::new();
    emit(&mut v, Op::Impl, t.name.as_str(), "");
    emit(&mut v, Op::Generic, "T", "");
    emit(&mut v, Op::TargetGeneric, "T", "");
    emit(&mut v, Op::ImplTrait, "tower::Service<()>", "");
    emit(&mut v, Op::Bound, "T", svc.name.as_str());
    emit(&mut v, Op::AssocType, "Response", "Self");
    emit(&mut v, Op::AssocType, "Error", "grpc::Never");
    emit(&mut v, Op::AssocType, "Future", "futures::FutureResult<Self::Response, Self::Error>");
    emit(&mut v, Op::Fn, "poll_ready", "");
    emit(&mut v, Op::ArgMutSelf, "", "");
    emit(&mut v, Op::Ret, "futures::Poll<(), Self::Error>", "");
    emit(&mut v, Op::Line, "Ok(futures::Async::Ready(()))", "");
    emit(&mut v, Op::EndFn, "", "");
    emit(&mut v, Op::Fn, "call", "");
    emit(&mut v, Op::ArgMutSelf, "", "");
    emit(&mut v, Op::Arg, "_target", "()");
    emit(&mut v, Op::Ret, "Self::Future", "");
    emit(&mut v, Op::Line, "futures::ok(self.clone())", "");
    emit(&mut v, Op::EndFn, "", "");
    emit(&mut v, Op::EndItem, "", "");
    assert(steps_view(v@) =~= make_service_of(*svc));
    v
}

/// The arms of a `match`, each a block.
pub open spec fn arms_of(arms: Seq<(Seq<char>, Seq<Seq<char>>)>) -> Seq<(Op, Seq<char>, Seq<char>)>
    decreases arms.len(),
{
    if arms.len() == 0 {
        Seq::empty()
    } else {
        arms_of(arms.drop_last()) + block_of(arms.last().0, arms.last().1)
    }
}

/// The response future of the server: a struct holding the `Kind` of
/// future of the method called, and its `futures::Future` impl, whose
/// `poll` has an arm for each kind.
pub open spec fn response_future_of(svc: ServiceDesc, ms: Seq<ServiceMethod>) -> Seq<(Op, Seq<char>, Seq<char>)> {
    seq![
        (Op::Struct, "ResponseFuture"@, ""@),
        (Op::Generic, "T"@, ""@),
        (Op::Bound, "T"@, svc.name@),
        (Op::Vis, "pub"@, ""@),
        (Op::Field, "pub(super) kind"@, response_fut_kind_of(methods_view(ms))),
        (Op::EndItem, ""@, ""@),
        (Op::Impl, "ResponseFuture"@, ""@),
        (Op::Generic, "T"@, ""@),
        (Op::TargetGeneric, "T"@, ""@),
        (Op::ImplTrait, "futures::Future"@, ""@),
        (Op::Bound, "T"@, svc.name@),
        (Op::AssocType, "Item"@, "http::Response<ResponseBody<T>>"@),
        (Op::AssocType, "Error"@, "grpc::Never"@),
        (Op::Fn, "poll"@, ""@),
        (Op::ArgMutSelf, ""@, ""@),
        (Op::Ret, "futures::Poll<Self::Item, Self::Error>"@, ""@),
        (Op::Line, "use self::Kind::*;"@, ""@),
        (Op::Line, ""@, ""@),
        (Op::Block, "match self.kind"@, ""@),
    ] + arms_of(poll_arms_of(methods_view(ms))) + seq![
        (Op::EndBlock, ""@, ""@),
        (Op::EndFn, ""@, ""@),
        (Op::EndItem, ""@, ""@),
    ]
}

/// The response future of the server.
fn response_future(svc: &ServiceDesc, ms: &[ServiceMethod]) -> (r: Vec<Step>)
    ensures
        steps_view(r@) == response_future_of(*svc, ms@),
{
    let kind = response_fut_kind(ms);
    let name = svc.name.as_str();
    let mut v: Vec<Step> = Vec::new();
    emit(&mut v, Op::Struct, "ResponseFuture", "");
    emit(&mut v, Op::Generic, "T", "");
    emit(&mut v, Op::Bound, "T", name);
    emit(&mut v, Op::Vis, "pub", "");
    emit(&mut v, Op::Field, "pub(super) kind", kind.as_str());
    emit(&mut v, Op::EndItem, "", "");
    emit(&mut v, Op::Impl, "ResponseFuture", "");
    emit(&mut v, Op::Generic, "T", "");
    emit(&mut v, Op::TargetGeneric, "T", "");
    emit(&mut v, Op::ImplTrait, "futures::Future", "");
    emit(&mut v, Op::Bound, "T", name);
    emit(&mut v, Op::AssocType, "Item", "http::Response<ResponseBody<T>>");
    emit(&mut v, Op::AssocType, "Error", "grpc::Never");
    emit(&mut v, Op::Fn, "poll", "");
    emit(&mut v, Op::ArgMutSelf, "", "");
    emit(&mut v, Op::Ret, "futures::Poll<Self::Item, Self::Error>", "");
    emit(&mut v, Op::Line, "use self::Kind::*;", "");
    emit(&mut v, Op::Line, "", "");
    emit(&mut v, Op::Block, "match self.kind", "");
    let ghost a = steps_view(v@);
    let arms = response_future_poll_arms(ms);
    let ghost av = arms@.map_values(|x: (String, Vec<String>)| crate::codegen_text::arm_view(x));
    let mut i: usize = 0;
    while i < arms.len()
        invariant
            i <= arms@.len(),
            av == arms@.map_values(|x: (String, Vec<String>)| crate::codegen_text::arm_view(x)),
            steps_view(v@) == a + arms_of(av.take(i as int)),
        decreases arms@.len() - i,
    {
        proof {
            assert(av.take(i + 1).drop_last() =~= av.take(i as int));
            assert(av.take(i + 1).last() == av[i as int]);
        }
        emit_block(&mut v, arms[i].0.as_str(), &arms[i].1);
        proof {
            assert(arms[i as int].1@.map_values(|l: String| l@) == av[i as int].1);
        }
        i = i + 1;
    }
    assert(av.take(arms@.len() as int) =~= av);
    let ghost b = steps_view(v@);
    emit(&mut v, Op::EndBlock, "", "");
    emit(&mut v, Op::EndFn, "", "");
    emit(&mut v, Op::EndItem, "", "");
    proof {
        assert(a =~= response_future_of(*svc, ms@).take(19));
        assert(response_future_of(*svc, ms@) =~= a + arms_of(poll_arms_of(methods_view(ms@))) + seq![
            (Op::EndBlock, ""@, ""@),
            (Op::EndFn, ""@, ""@),
            (Op::EndItem, ""@, ""@),
        ]);
        assert(steps_view(v@) =~= response_future_of(*svc, ms@));
    }
    v
}

/// The imports of the request types of the methods, seen two modules down.
pub open spec fn input_imports_of(ms: Seq<ServiceMethod>) -> Seq<(Op, Seq<char>, Seq<char>)>
    decreases ms.len(),
{
    if ms.len() == 0 {
        Seq::empty()
    } else {
        input_imports_of(ms.drop_last()) + import_of(ms.last().input_type@, 2)
    }
}

/// The imports of the request types of the methods, seen two modules down.
fn input_imports(ms: &[ServiceMethod]) -> (r: Vec<Step>)
    ensures
        steps_view(r@) == input_imports_of(ms@),
{
    let mut v: Vec<Step> = Vec::new();
    let mut i: usize = 0;
    while i < ms.len()
        invariant
            i <= ms@.len(),
            steps_view(v@) == input_imports_of(ms@.take(i as int)),
        decreases ms@.len() - i,
    {
        proof {
            assert(ms@.take(i + 1).drop_last() =~= ms@.take(i as int));
            assert(ms@.take(i + 1).last() == ms@[i as int]);
        }
        emit_import(&mut v, ms[i].input_type.as_str(), 2);
        i = i + 1;
    }
    assert(ms@.take(ms@.len() as int) =~= ms@);
    v
}

/// A function of the response body's `tower::HttpBody` impl: it matches
/// the kind of body with the given lines.
pub open spec fn body_fn_of(name: Seq<char>, by_ref: bool, ret: Seq<char>, ls: Seq<Seq<char>>) -> Seq<(Op, Seq<char>, Seq<char>)> {
    seq![
        (Op::Fn, name, ""@),
        (if by_ref { (Op::ArgRefSelf, ""@, ""@) } else { (Op::ArgMutSelf, ""@, ""@) }),
        (Op::Ret, ret, ""@),
        (Op::Line, "use self::Kind::*;"@, ""@),
        (Op::Line, ""@, ""@),
    ] + block_of("match self.kind"@, ls) + seq![(Op::EndFn, ""@, ""@)]
}

/// A function of the response body's `tower::HttpBody` impl.
fn emit_body_fn(v: &mut Vec<Step>, name: &str, by_ref: bool, ret: &str, ls: &Vec<String>)
    ensures
        steps_view(final(v)@) == steps_view(old(v)@) + body_fn_of(name@, by_ref, ret@, ls@.map_values(|l: String| l@)),
{
    let ghost v0 = steps_view(v@);
    emit(v, Op::Fn, name, "");
    if by_ref {
        emit(v, Op::ArgRefSelf, "", "");
    } else {
        emit(v, Op::ArgMutSelf, "", "");
    }
    emit(v, Op::Ret, ret, "");
    emit(v, Op::Line, "use self::Kind::*;", "");
    emit(v, Op::Line, "", "");
    let ghost v1 = steps_view(v@);
    emit_block(v, "match self.kind", ls);
    let ghost v2 = steps_view(v@);
    emit(v, Op::EndFn, "", "");
    proof {
        let lv = ls@.map_values(|l: String| l@);
        assert(v1 =~= v0 + body_fn_of(name@, by_ref, ret@, lv).take(5));
        assert(body_fn_of(name@, by_ref, ret@, lv) =~= body_fn_of(name@, by_ref, ret@, lv).take(5)
            + block_of("match self.kind"@, lv) + seq![(Op::EndFn, ""@, ""@)]);
        assert(steps_view(v@) =~= v0 + body_fn_of(name@, by_ref, ret@, lv));
    }
}

/// The response body of the server: the imports of the request types, a
/// struct holding the `Kind` of body of the method called, and its
/// `tower::HttpBody` impl, whose functions match each kind.
pub open spec fn response_body_of(svc: ServiceDesc, ms: Seq<ServiceMethod>) -> Seq<(Op, Seq<char>, Seq<char>)> {
    let arms = body_arms_of(methods_view(ms));
    input_imports_of(ms) + seq![
        (Op::Struct, "ResponseBody"@, ""@),
        (Op::Generic, "T"@, ""@),
        (Op::Bound, "T"@, svc.name@),
        (Op::Vis, "pub"@, ""@),
        (Op::Field, "pub(super) kind"@, response_body_kind_of(methods_view(ms))),
        (Op::EndItem, ""@, ""@),
        (Op::Impl, "ResponseBody"@, ""@),
        (Op::Generic, "T"@, ""@),
        (Op::TargetGeneric, "T"@, ""@),
        (Op::ImplTrait, "tower::HttpBody"@, ""@),
        (Op::Bound, "T"@, svc.name@),
        (Op::AssocType, "Item"@, "<grpc::BoxBody as grpc::Body>::Item"@),
        (Op::AssocType, "Error"@, "grpc::Status"@),
    ] + body_fn_of("is_end_stream"@, true, "bool"@, arms.0)
        + body_fn_of("poll_buf"@, false, "futures::Poll<Option<Self::Item>, Self::Error>"@, arms.1)
        + body_fn_of("poll_trailers"@, false, "futures::Poll<Option<http::HeaderMap>, Self::Error>"@, arms.2)
        + seq![(Op::EndItem, ""@, ""@)]
}

/// The response body of the server.
fn response_body(svc: &ServiceDesc, ms: &[ServiceMethod]) -> (r: Vec<Step>)
    ensures
        steps_view(r@) == response_body_of(*svc, ms@),
{
    let kind = response_body_kind(ms);
    let (ends, bufs, trailers) = response_body_arms(ms);
    let name = svc.name.as_str();
    let mut v = input_imports(ms);
    let ghost a = steps_view(v@);
    emit(&mut v, Op::Struct, "ResponseBody", "");
    emit(&mut v, Op::Generic, "T", "");
    emit(&mut v, Op::Bound, "T", name);
    emit(&mut v, Op::Vis, "pub", "");
    emit(&mut v, Op::Field, "pub(super) kind", kind.as_str());
    emit(&mut v, Op::EndItem, "", "");
    emit(&mut v, Op::Impl, "ResponseBody", "");
    emit(&mut v, Op::Generic, "T", "");
    emit(&mut v, Op::TargetGeneric, "T", "");
    emit(&mut v, Op::ImplTrait, "tower::HttpBody", "");
    emit(&mut v, Op::Bound, "T", name);
    emit(&mut v, Op::AssocType, "Item", "<grpc::BoxBody as grpc::Body>::Item");
    emit(&mut v, Op::AssocType, "Error", "grpc::Status");
    let ghost b = steps_view(v@);
    emit_body_fn(&mut v, "is_end_stream", true, "bool", &ends);
    emit_body_fn(&mut v, "poll_buf", false, "futures::Poll<Option<Self::Item>, Self::Error>", &bufs);
    emit_body_fn(&mut v, "poll_trailers", false, "futures::Poll<Option<http::HeaderMap>, Self::Error>", &trailers);
    let ghost c = steps_view(v@);
    emit(&mut v, Op::EndItem, "", "");
    proof {
        let arms = body_arms_of(methods_view(ms@));
        assert(ends@.map_values(|l: String| l@) =~= crate::codegen_text::lines_view(ends@));
        assert(bufs@.map_values(|l: String| l@) =~= crate::codegen_text::lines_view(bufs@));
        assert(trailers@.map_values(|l: String| l@) =~= crate::codegen_text::lines_view(trailers@));
        let mid = seq![
            (Op::Struct, "ResponseBody"@, ""@),
            (Op::Generic, "T"@, ""@),
            (Op::Bound, "T"@, svc.name@),
            (Op::Vis, "pub"@, ""@),
            (Op::Field, "pub(super) kind"@, response_body_kind_of(methods_view(ms@))),
            (Op::EndItem, ""@, ""@),
            (Op::Impl, "ResponseBody"@, ""@),
            (Op::Generic, "T"@, ""@),
            (Op::TargetGeneric, "T"@, ""@),
            (Op::ImplTrait, "tower::HttpBody"@, ""@),
            (Op::Bound, "T"@, svc.name@),
            (Op::AssocType, "Item"@, "<grpc::BoxBody as grpc::Body>::Item"@),
            (Op::AssocType, "Error"@, "grpc::Status"@),
        ];
        assert(b =~= a + mid);
        assert(steps_view(v@) =~= response_body_of(*svc, ms@));
    }
    v
}

/// The variant of `Kind` for one method: a generic parameter and a
/// variant holding it, both named after the method.
pub open spec fn kind_variant_of(m: ServiceMethod) -> Seq<(Op, Seq<char>, Seq<char>)> {
    let upper = upper_camel_of(m.proto_name@);
    seq![(Op::Generic, upper, ""@), (Op::Variant, upper, upper)]
}

/// The variants of `Kind` for the methods, in order.
pub open spec fn kind_variants_of(ms: Seq<ServiceMethod>) -> Seq<(Op, Seq<char>, Seq<char>)>
    decreases ms.len(),
{
    if ms.len() == 0 {
        Seq::empty()
    } else {
        kind_variants_of(ms.drop_last()) + kind_variant_of(ms.last())
    }
}

/// The `Kind` enum that tells the methods apart: a variant per method, and
/// one for calls of methods the service does not have.
pub open spec fn kind_enum_of(ms: Seq<ServiceMethod>) -> Seq<(Op, Seq<char>, Seq<char>)> {
    seq![
        (Op::Enum, "Kind"@, ""@),
        (Op::Vis, "pub(super)"@, ""@),
        (Op::Derive, "Debug"@, ""@),
        (Op::Derive, "Clone"@, ""@),
        (Op::Allow, "non_camel_case_types"@, ""@),
    ] + kind_variants_of(ms) + seq![
        (Op::Generic, unimplemented_variant(), ""@),
        (Op::Variant, unimplemented_variant(), unimplemented_variant()),
        (Op::EndItem, ""@, ""@),
    ]
}

/// The `Kind` enum.
fn kind_enum(ms: &[ServiceMethod]) -> (r: Vec<Step>)
    ensures
        steps_view(r@) == kind_enum_of(ms@),
{
    let mut v: Vec<Step> = Vec::new();
    emit(&mut v, Op::Enum, "Kind", "");
    emit(&mut v, Op::Vis, "pub(super)", "");
    emit(&mut v, Op::Derive, "Debug", "");
    emit(&mut v, Op::Derive, "Clone", "");
    emit(&mut v, Op::Allow, "non_camel_case_types", "");
    let ghost a = steps_view(v@);
    let mut i: usize = 0;
    while i < ms.len()
        invariant
            i <= ms@.len(),
            steps_view(v@) == a + kind_variants_of(ms@.take(i as int)),
        decreases ms@.len() - i,
    {
        proof {
            assert(ms@.take(i + 1).drop_last() =~= ms@.take(i as int));
            assert(ms@.take(i + 1).last() == ms@[i as int]);
        }
        let upper = to_upper_camel(ms[i].proto_name.as_str());
        emit(&mut v, Op::Generic, upper.as_str(), "");
        emit(&mut v, Op::Variant, upper.as_str(), upper.as_str());
        proof {
            assert(steps_view(v@) =~= a + kind_variants_of(ms@.take(i + 1)));
        }
        i = i + 1;
    }
    assert(ms@.take(ms@.len() as int) =~= ms@);
    let ghost b = steps_view(v@);
    emit(&mut v, Op::Generic, "__Generated__Unimplemented", "");
    emit(&mut v, Op::Variant, "__Generated__Unimplemented", "__Generated__Unimplemented");
    emit(&mut v, Op::EndItem, "", "");
    proof {
        assert(a =~= kind_enum_of(ms@).take(5));
        assert(steps_view(v@) =~= kind_enum_of(ms@));
    }
    v
}

/// The service of one method in the `methods` module: the imports of its
/// message types, seen two modules down (not the response type where the
/// server streams); a tuple struct named after the method holding the
/// service; and its `tower::Service` impl, whose `call` calls the trait's
/// function of the method.
pub open spec fn method_service_of(svc: ServiceDesc, m: ServiceMethod) -> Seq<(Op, Seq<char>, Seq<char>)> {
    method_imports_of(m) + method_service_body_of(svc, m)
}

/// The imports of the message types of one method, seen two modules down:
/// not the response type where the server streams.
pub open spec fn method_imports_of(m: ServiceMethod) -> Seq<(Op, Seq<char>, Seq<char>)> {
    import_of(m.input_type@, 2) + (if !m.server_streaming { import_of(m.output_type@, 2) } else { Seq::empty() })
}

/// The struct and impl of the service of one method.
pub open spec fn method_service_body_of(svc: ServiceDesc, m: ServiceMethod) -> Seq<(Op, Seq<char>, Seq<char>)> {
    let upper = upper_camel_of(m.proto_name@);
    let types = service_method_types_of(method_view(m), m.output_type@);
    seq![
        (Op::Struct, upper, ""@),
        (Op::Vis, "pub"@, ""@),
        (Op::Generic, "T"@, ""@),
        (Op::TupleField, "pub T"@, ""@),
        (Op::EndItem, ""@, ""@),
        (Op::Impl, upper, ""@),
        (Op::Generic, "T"@, ""@),
        (Op::TargetGeneric, "T"@, ""@),
        (Op::ImplTrait, "tower::Service<"@ + types.0 + ">"@, ""@),
        (Op::Bound, "T"@, svc.name@),
        (Op::AssocType, "Response"@, types.1),
        (Op::AssocType, "Error"@, "grpc::Status"@),
        (Op::AssocType, "Future"@, "T::"@ + upper + "Future"@),
        (Op::Fn, "poll_ready"@, ""@),
        (Op::ArgMutSelf, ""@, ""@),
        (Op::Ret, "futures::Poll<(), Self::Error>"@, ""@),
        (Op::Line, "Ok(futures::Async::Ready(()))"@, ""@),
        (Op::EndFn, ""@, ""@),
        (Op::Fn, "call"@, ""@),
        (Op::ArgMutSelf, ""@, ""@),
        (Op::Arg, "request"@, types.0),
        (Op::Ret, "Self::Future"@, ""@),
        (Op::Line, "self.0."@ + m.name@ + "(request)"@, ""@),
        (Op::EndFn, ""@, ""@),
        (Op::EndItem, ""@, ""@),
    ]
}

/// The struct and impl of the service of one method.
fn method_service_body(svc: &ServiceDesc, m: &ServiceMethod) -> (r: Vec<Step>)
    ensures
        steps_view(r@) == method_service_body_of(*svc, *m),
{
    let upper = to_upper_camel(m.proto_name.as_str());
    let (req, resp) = service_method_types(m);
    let service_trait = cat3("tower::Service<", req.as_str(), ">");
    let future = cat3("T::", upper.as_str(), "Future");
    let call = cat3("self.0.", m.name.as_str(), "(request)");
    let mut v: Vec<Step> = Vec::new();
    emit(&mut v, Op::Struct, upper.as_str(), "");
    emit(&mut v, Op::Vis, "pub", "");
    emit(&mut v, Op::Generic, "T", "");
    emit(&mut v, Op::TupleField, "pub T", "");
    emit(&mut v, Op::EndItem, "", "");
    emit(&mut v, Op::Impl, upper.as_str(), "");
    emit(&mut v, Op::Generic, "T", "");
    emit(&mut v, Op::TargetGeneric, "T", "");
    emit(&mut v, Op::ImplTrait, service_trait.as_str(), "");
    emit(&mut v, Op::Bound, "T", svc.name.as_str());
    emit(&mut v, Op::AssocType, "Response", resp.as_str());
    emit(&mut v, Op::AssocType, "Error", "grpc::Status");
    emit(&mut v, Op::AssocType, "Future", future.as_str());
    emit(&mut v, Op::Fn, "poll_ready", "");
    emit(&mut v, Op::ArgMutSelf, "", "");
    emit(&mut v, Op::Ret, "futures::Poll<(), Self::Error>", "");
    emit(&mut v, Op::Line, "Ok(futures::Async::Ready(()))", "");
    emit(&mut v, Op::EndFn, "", "");
    emit(&mut v, Op::Fn, "call", "");
    emit(&mut v, Op::ArgMutSelf, "", "");
    emit(&mut v, Op::Arg, "request", req.as_str());
    emit(&mut v, Op::Ret, "Self::Future", "");
    emit(&mut v, Op::Line, call.as_str(), "");
    emit(&mut v, Op::EndFn, "", "");
    emit(&mut v, Op::EndItem, "", "");
    assert(steps_view(v@) =~= method_service_body_of(*svc, *m));
    v
}

/// The service of one method in the `methods` module.
fn method_service(svc: &ServiceDesc, m: &ServiceMethod) -> (r: Vec<Step>)
    ensures
        steps_view(r@) == method_service_of(*svc, *m),
{
    let mut v: Vec<Step> = Vec::new();
    emit_import(&mut v, m.input_type.as_str(), 2);
    if !m.server_streaming {
        emit_import(&mut v, m.output_type.as_str(), 2);
    }
    assert(steps_view(v@) =~= method_imports_of(*m));
    append_steps(&mut v, method_service_body(svc, m));
    v
}

/// The services of the methods, in order.
pub open spec fn method_services_of(svc: ServiceDesc, ms: Seq<ServiceMethod>) -> Seq<(Op, Seq<char>, Seq<char>)>
    decreases ms.len(),
{
    if ms.len() == 0 {
        Seq::empty()
    } else {
        method_services_of(svc, ms.drop_last()) + method_service_of(svc, ms.last())
    }
}

/// The `methods` module: it imports the server support of `tower-grpc`
/// and the service trait, and holds the service of each method.
pub open spec fn methods_module_of(svc: ServiceDesc, ms: Seq<ServiceMethod>) -> Seq<(Op, Seq<char>, Seq<char>)> {
    seq![
        (Op::Module, "methods"@, ""@),
        (Op::Vis, "pub"@, ""@),
        (Op::Import, "::tower_grpc::codegen::server"@, "*"@),
        (Op::Import, "super::super"@, svc.name@),
    ] + method_services_of(svc, ms) + seq![(Op::EndModule, ""@, ""@)]
}

/// The `methods` module.
fn methods_module(svc: &ServiceDesc, ms: &[ServiceMethod]) -> (r: Vec<Step>)
    ensures
        steps_view(r@) == methods_module_of(*svc, ms@),
{
    let mut v: Vec<Step> = Vec::new();
    emit(&mut v, Op::Module, "methods", "");
    emit(&mut v, Op::Vis, "pub", "");
    emit(&mut v, Op::Import, "::tower_grpc::codegen::server", "*");
    emit(&mut v, Op::Import, "super::super", svc.name.as_str());
    let ghost a = steps_view(v@);
    let mut i: usize = 0;
    while i < ms.len()
        invariant
            i <= ms@.len(),
            steps_view(v@) == a + method_services_of(*svc, ms@.take(i as int)),
        decreases ms@.len() - i,
    {
        proof {
            assert(ms@.take(i + 1).drop_last() =~= ms@.take(i as int));
            assert(ms@.take(i + 1).last() == ms@[i as int]);
        }
        let ghost before = steps_view(v@);
        append_steps(&mut v, method_service(svc, &ms[i]));
        proof {
            assert(steps_view(v@) =~= a + method_services_of(*svc, ms@.take(i + 1)));
        }
        i = i + 1;
    }
    assert(ms@.take(ms@.len() as int) =~= ms@);
    let ghost b = steps_view(v@);
    emit(&mut v, Op::EndModule, "", "");
    proof {
        assert(a =~= methods_module_of(*svc, ms@).take(4));
        assert(steps_view(v@) =~= methods_module_of(*svc, ms@));
    }
    v
}

/// The generated server of a service, in the top-level module `server`:
/// the service trait; the server struct with its constructor, its service
/// impl that routes calls, and its impl that makes it as a service; and a
/// module named after the service in snake case that holds the response
/// future and body, the `Kind` enum, and the `methods` module.
pub open spec fn server_plan_of(svc: ServiceDesc, ms: Seq<ServiceMethod>) -> Seq<(Op, Seq<char>, Seq<char>)> {
    let lower = server_struct_text_of(svc.name@).1;
    server_trait_of(svc, ms) + server_struct_of(svc, ms) + make_service_of(svc) + seq![
        (Op::Module, lower, ""@),
        (Op::Vis, "pub"@, ""@),
        (Op::Import, "::tower_grpc::codegen::server"@, "*"@),
        (Op::Import, "super"@, svc.name@),
    ] + response_future_of(svc, ms) + response_body_of(svc, ms) + kind_enum_of(ms) + methods_module_of(svc, ms)
        + seq![(Op::EndModule, ""@, ""@), (Op::EndModule, ""@, ""@)]
}

/// The builder steps of the generated server of a service.
pub fn server_plan(svc: &ServiceDesc, ms: &[ServiceMethod]) -> (r: Vec<Step>)
    ensures
        steps_view(r@) == server_plan_of(*svc, ms@),
{
    let t = server_struct_text(svc.name.as_str());
    let mut v = server_trait(svc, ms);
    append_steps(&mut v, server_struct(svc, ms));
    append_steps(&mut v, make_service(svc));
    let ghost a = steps_view(v@);
    emit(&mut v, Op::Module, t.field.as_str(), "");
    emit(&mut v, Op::Vis, "pub", "");
    emit(&mut v, Op::Import, "::tower_grpc::codegen::server", "*");
    emit(&mut v, Op::Import, "super", svc.name.as_str());
    assert(steps_view(v@) =~= a + seq![
        (Op::Module, server_struct_text_of(svc.name@).1, ""@),
        (Op::Vis, "pub"@, ""@),
        (Op::Import, "::tower_grpc::codegen::server"@, "*"@),
        (Op::Import, "super"@, svc.name@),
    ]);
    append_steps(&mut v, response_future(svc, ms));
    append_steps(&mut v, response_body(svc, ms));
    append_steps(&mut v, kind_enum(ms));
    append_steps(&mut v, methods_module(svc, ms));
    let ghost b = steps_view(v@);
    emit(&mut v, Op::EndModule, "", "");
    emit(&mut v, Op::EndModule, "", "");
    assert(steps_view(v@) =~= b + seq![(Op::EndModule, ""@, ""@), (Op::EndModule, ""@, ""@)]);
    v
}

// ===== Documentation =====

/// A comment line without its leading blanks (spaces and tabs).
pub open spec fn trim_blanks(s: Seq<char>) -> Seq<char>
    decreases s.len(),
{
    if s.len() > 0 && (s[0] == ' ' || s[0] == '\t') {
        trim_blanks(s.drop_first())
    } else {
        s
    }
}

/// The documentation of a service or method, made from its leading comment
/// lines: each line without its leading blanks, and a line break after it.
pub open spec fn rustdoc_of(lines: Seq<Seq<char>>) -> Seq<char>
    decreases lines.len(),
{
    if lines.len() == 0 {
        Seq::empty()
    } else {
        rustdoc_of(lines.drop_last()) + trim_blanks(lines.last()) + seq!['\n']
    }
}

/// Trimming from `k` on gives what trimming from the start gives, where
/// everything before `k` is blank.
proof fn lemma_trim_from(s: Seq<char>, k: int)
    requires
        0 <= k <= s.len(),
        forall|j: int| 0 <= j < k ==> #[trigger] s[j] == ' ' || s[j] == '\t',
    ensures
        trim_blanks(s) == trim_blanks(s.subrange(k, s.len() as int)),
    decreases k,
{
    if k > 0 {
        assert(s.drop_first() =~= s.subrange(1, s.len() as int));
        let t = s.drop_first();
        assert forall|j: int| 0 <= j < k - 1 implies #[trigger] t[j] == ' ' || t[j] == '\t' by {
            assert(t[j] == s[j + 1]);
        }
        lemma_trim_from(t, k - 1);
        assert(t.subrange(k - 1, t.len() as int) =~= s.subrange(k, s.len() as int));
    } else {
        assert(s.subrange(0, s.len() as int) =~= s);
    }
}

/// A comment line without its leading blanks.
fn trim_line(line: &str) -> (r: String)
    ensures
        r@ == trim_blanks(line@),
{
    let cs = chars_vec(line);
    let mut k: usize = 0;
    while k < cs.len() && (cs[k] == ' ' || cs[k] == '\t')
        invariant
            k <= cs@.len(),
            cs@ == line@,
            forall|j: int| 0 <= j < k ==> #[trigger] cs@[j] == ' ' || cs@[j] == '\t',
        decreases cs@.len() - k,
    {
        k = k + 1;
    }
    let mut rest: Vec<char> = Vec::new();
    let mut i: usize = k;
    while i < cs.len()
        invariant
            k <= i <= cs@.len(),
            rest@ == cs@.subrange(k as int, i as int),
        decreases cs@.len() - i,
    {
        rest.push(cs[i]);
        i = i + 1;
        assert(rest@ =~= cs@.subrange(k as int, i as int));
    }
    proof {
        lemma_trim_from(line@, k as int);
        let t = line@.subrange(k as int, line@.len() as int);
        assert(trim_blanks(t) == t);
    }
    crate::names::string_of(&rest)
}

/// The documentation made from leading comment lines.
pub fn rustdoc(lines: &[String]) -> (r: String)
    ensures
        r@ == rustdoc_of(lines@.map_values(|l: String| l@)),
{
    let ghost lv = lines@.map_values(|l: String| l@);
    let mut r = String::new();
    let mut i: usize = 0;
    while i < lines.len()
        invariant
            i <= lines@.len(),
            lv == lines@.map_values(|l: String| l@),
            r@ == rustdoc_of(lv.take(i as int)),
        decreases lines@.len() - i,
    {
        proof {
            assert(lv.take(i + 1).drop_last() =~= lv.take(i as int));
            assert(lv.take(i + 1).last() == lv[i as int]);
        }
        let t = trim_line(lines[i].as_str());
        push_all(&mut r, t.as_str());
        push_all(&mut r, "\n");
        proof {
            reveal_strlit("\n");
            assert(r@ =~= rustdoc_of(lv.take(i + 1)));
        }
        i = i + 1;
    }
    assert(lv.take(lines@.len() as int) =~= lv);
    r
}

} // verus!
