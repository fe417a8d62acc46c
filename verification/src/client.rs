//! The client side of gRPC: where a service is, and the HTTP/2 requests
//! that calls to it send.
use vstd::prelude::*;

use crate::header_map_specs::{has_name, header_entries, header_map_insert, values_of};
use crate::http_specs::{ascii_bytes, header_name_from_static, header_value_bytes, header_value_from_static};
use crate::metadata_map::lemma_insert_then_get;
use crate::request::Request;
use crate::codec::Direction;
use crate::status::{code_from_bytes, grpc_status_field, infer_grpc_status, opt_code, Code, Status};
use crate::uri_specs::{
    authority_clone, authority_str, path_and_query_str, scheme_clone, scheme_str, uri_authority,
    uri_authority_part, uri_from_parts, uri_path_and_query, uri_scheme, uri_scheme_part,
};
use http::header::HeaderValue;
use http::uri::{Authority, PathAndQuery, Scheme};
use http::{HeaderMap, StatusCode, Uri};
use futures::stream::Once;

verus! {

/// A gRPC client: the HTTP/2 service it sends through, and the scheme and
/// authority of the gRPC service it calls.
pub struct Grpc<T> {
    inner: T,
    scheme: Scheme,
    authority: Authority,
}

/// Builds a gRPC client.
pub struct Builder {
    uri: Option<Uri>,
}

/// The service URI given to a `Builder` has no scheme or no authority.
#[derive(Debug)]
pub struct BuilderError {
    _p: (),
}

/// Convert a stream of protobuf messages to an HTTP body payload.
pub trait Encodable<T> {
    /// The body payload.
    fn into_encode(self) -> T;
}

/// The `te` header name.
pub open spec fn te_name() -> Seq<char> {
    seq!['t', 'e']
}

/// The `content-type` header name.
pub open spec fn content_type_name() -> Seq<char> {
    seq!['c', 'o', 'n', 't', 'e', 'n', 't', '-', 't', 'y', 'p', 'e']
}

/// The headers of a gRPC request: `te: trailers`, and `content-type:
/// application/grpc+proto`, each the one value under its name; the other
/// headers stay as they were.
pub open spec fn has_grpc_headers(before: Seq<(Seq<char>, Seq<HeaderValue>)>, after: Seq<(Seq<char>, Seq<HeaderValue>)>) -> bool {
    &&& values_of(after, te_name()).len() == 1
    &&& header_value_bytes(values_of(after, te_name())[0]) == ascii_bytes("trailers"@)
    &&& values_of(after, content_type_name()).len() == 1
    &&& header_value_bytes(values_of(after, content_type_name())[0]) == ascii_bytes("application/grpc+proto"@)
    &&& forall|n: Seq<char>| n != te_name() && n != content_type_name() ==> #[trigger] values_of(after, n) == values_of(before, n)
}

/// The header map has room for the two gRPC request headers.
pub open spec fn has_room_for_grpc_headers(e: Seq<(Seq<char>, Seq<HeaderValue>)>) -> bool {
    e.len() + (if has_name(e, te_name()) { 0int } else { 1int }) + (if has_name(e, content_type_name()) { 0int } else { 1int }) <= 32768
}

impl Builder {
    /// The service URI, once given.
    pub closed spec fn spec_uri(&self) -> Option<Uri> {
        self.uri
    }

    /// Return a new client builder
    pub fn new() -> (r: Builder)
        ensures
            r.spec_uri() is None,
    {
        Builder { uri: None }
    }

    /// Sets the service URI.
    pub fn uri(&mut self, value: Uri) -> (r: &mut Builder)
        ensures
            r.spec_uri() == Some(value),
            *final(self) == *final(r),
    {
        self.uri = Some(value);
        self
    }

    /// Builds the client over the HTTP/2 service `inner`: an error where
    /// the URI has no scheme or no authority. The URI must have been given.
    pub fn build<T>(&mut self, inner: T) -> (r: Result<Grpc<T>, BuilderError>)
        requires
            old(self).spec_uri() is Some,
        ensures
            final(self).spec_uri() == old(self).spec_uri(),
            r is Ok <==> uri_scheme(old(self).spec_uri()->0) is Some && uri_authority(old(self).spec_uri()->0) is Some,
            r matches Ok(g) ==> Some(g.spec_scheme()) == uri_scheme(old(self).spec_uri()->0)
                && Some(g.spec_authority()) == uri_authority(old(self).spec_uri()->0)
                && g.spec_inner() == inner,
    {
        let uri = match &self.uri {
            Some(u) => u,
            None => vstd::pervasive::unreached(),
        };
        let scheme = match uri_scheme_part(uri) {
            Some(scheme) => scheme,
            None => return Err(BuilderError::new()),
        };
        let authority = match uri_authority_part(uri) {
            Some(authority) => authority,
            None => return Err(BuilderError::new()),
        };
        Ok(Grpc { inner, scheme, authority })
    }
}

impl BuilderError {
    fn new() -> BuilderError {
        BuilderError { _p: () }
    }
}

/// Adds the headers of a gRPC request: `te: trailers`, and `content-type:
/// application/grpc+proto`, in place of any values under those names.
pub fn add_grpc_headers(headers: &mut HeaderMap)
    requires
        has_room_for_grpc_headers(header_entries(*old(headers))),
    ensures
        has_grpc_headers(header_entries(*old(headers)), header_entries(*final(headers))),
{
    let ghost e0 = header_entries(*headers);
    proof {
        reveal_strlit("te");
        reveal_strlit("trailers");
        reveal_strlit("content-type");
        reveal_strlit("application/grpc+proto");
        assert("te"@ =~= te_name());
        assert("content-type"@ =~= content_type_name());
    }
    let te = header_name_from_static("te");
    let te_value = header_value_from_static("trailers");
    let _ = header_map_insert(headers, te, te_value);
    let ghost e1 = header_entries(*headers);
    proof {
        lemma_insert_then_get(e0, te_name(), te_value, content_type_name());
        assert(e1.len() == e0.len() + (if has_name(e0, te_name()) { 0int } else { 1int }));
        if has_name(e0, content_type_name()) {
            let j = choose|j: int| 0 <= j < e0.len() && (#[trigger] e0[j]).0 == content_type_name();
            assert(values_of(e1, content_type_name()) == values_of(e0, content_type_name()));
        }
    }
    let ct = header_name_from_static("content-type");
    let ct_value = header_value_from_static("application/grpc+proto");
    let _ = header_map_insert(headers, ct, ct_value);
    proof {
        let e2 = header_entries(*headers);
        lemma_insert_then_get(e1, content_type_name(), ct_value, te_name());
        assert forall|n: Seq<char>| n != te_name() && n != content_type_name() implies #[trigger] values_of(e2, n) == values_of(e0, n) by {
            lemma_insert_then_get(e0, te_name(), te_value, n);
            lemma_insert_then_get(e1, content_type_name(), ct_value, n);
        }
    }
}

/// The status that trailers report in their `grpc-status` field, if they
/// have one.
pub fn check_grpc_status(trailers: &HeaderMap) -> (r: Option<Status>)
    ensures
        opt_code(r) == match grpc_status_field(*trailers) {
            Some(b) => Some(code_from_bytes(b)),
            None => None,
        },
{
    infer_grpc_status(trailers, None)
}

/// How a client reads the body of a response, given the response's head: a
/// `grpc-status` field in the headers makes it a trailers-only response,
/// which is an error unless the status is `OK`, and then has no body to
/// read; otherwise the body is read, and its trailers judged with the HTTP
/// status.
pub fn response_direction(headers: &HeaderMap, status_code: StatusCode) -> (r: Result<Direction, Status>)
    ensures
        match grpc_status_field(*headers) {
            Some(b) => if code_from_bytes(b) == Code::OK {
                r == Ok::<Direction, Status>(Direction::EmptyResponse)
            } else {
                r matches Err(e) && e.spec_code() == code_from_bytes(b)
            },
            None => r == Ok::<Direction, Status>(Direction::Response(status_code)),
        },
{
    match check_grpc_status(headers) {
        Some(status) => {
            if status.code() == Code::OK {
                Ok(Direction::EmptyResponse)
            } else {
                Err(status)
            }
        },
        None => Ok(Direction::Response(status_code)),
    }
}

/// The one message of a unary response: an internal error where the
/// response carried none.
pub fn single_message<M>(message: Option<M>) -> (r: Result<M, Status>)
    ensures
        match message {
            Some(m) => r == Ok::<M, Status>(m),
            None => r matches Err(e) && e.spec_code() == Code::Internal,
        },
{
    match message {
        Some(m) => Ok(m),
        None => Err(Status::new(Code::Internal)),
    }
}

impl<T> Grpc<T> {
    /// The HTTP/2 service.
    pub closed spec fn spec_inner(&self) -> T {
        self.inner
    }

    /// The scheme of the gRPC service.
    pub closed spec fn spec_scheme(&self) -> Seq<char> {
        scheme_str(self.scheme)
    }

    /// The authority of the gRPC service.
    pub closed spec fn spec_authority(&self) -> Seq<char> {
        authority_str(self.authority)
    }

    /// The HTTP/2 service, to make the calls through.
    pub fn inner_mut(&mut self) -> (r: &mut T)
        ensures
            *r == old(self).spec_inner(),
            final(self).spec_inner() == *final(r),
            final(self).spec_scheme() == old(self).spec_scheme(),
            final(self).spec_authority() == old(self).spec_authority(),
    {
        &mut self.inner
    }

    /// The URI of a gRPC method: the service's scheme and authority, and the
    /// method's path.
    pub fn method_uri(&self, path: PathAndQuery) -> (r: Uri)
        ensures
            uri_scheme(r) == Some(self.spec_scheme()),
            uri_authority(r) == Some(self.spec_authority()),
            uri_path_and_query(r) == Some(path_and_query_str(path)),
    {
        match uri_from_parts(scheme_clone(&self.scheme), authority_clone(&self.authority), path) {
            Ok(uri) => uri,
            Err(_) => vstd::pervasive::unreached(),
        }
    }

    /// The HTTP/2 request of a streaming call of the method at `path`, as
    /// its parts: the method's URI, the request's metadata with the gRPC
    /// request headers, and the request's message as the body. The caller
    /// sends it through the HTTP/2 service (`CallRequest::into_http` makes
    /// the `POST` request), since the service is called through `tower`'s
    /// `Service` trait.
    pub fn streaming<B>(&mut self, request: Request<B>, path: PathAndQuery) -> (r: CallRequest<B>)
        requires
            has_room_for_grpc_headers(header_entries(request.spec_metadata())),
        ensures
            *final(self) == *old(self),
            uri_scheme(r.uri) == Some(old(self).spec_scheme()),
            uri_authority(r.uri) == Some(old(self).spec_authority()),
            uri_path_and_query(r.uri) == Some(path_and_query_str(path)),
            has_grpc_headers(header_entries(request.spec_metadata()), header_entries(r.headers)),
            r.body == request.spec_message(),
    {
        let uri = self.method_uri(path);
        let mut request = request;
        add_grpc_headers(request.metadata_mut());
        let (headers, body) = request.into_parts();
        CallRequest { uri, headers, body }
    }

    /// The HTTP/2 request of a client-streaming call: that of a streaming
    /// call, the stream of messages as its body.
    pub fn client_streaming<B>(&mut self, request: Request<B>, path: PathAndQuery) -> (r: CallRequest<B>)
        requires
            has_room_for_grpc_headers(header_entries(request.spec_metadata())),
        ensures
            *final(self) == *old(self),
            uri_scheme(r.uri) == Some(old(self).spec_scheme()),
            uri_authority(r.uri) == Some(old(self).spec_authority()),
            uri_path_and_query(r.uri) == Some(path_and_query_str(path)),
            has_grpc_headers(header_entries(request.spec_metadata()), header_entries(r.headers)),
            r.body == request.spec_message(),
    {
        self.streaming(request, path)
    }

    /// The HTTP/2 request of a unary call: that of a client-streaming call
    /// whose stream holds the one message.
    pub fn unary<M>(&mut self, request: Request<M>, path: PathAndQuery) -> (r: CallRequest<Once<M, Status>>)
        requires
            has_room_for_grpc_headers(header_entries(request.spec_metadata())),
        ensures
            *final(self) == *old(self),
            uri_scheme(r.uri) == Some(old(self).spec_scheme()),
            uri_authority(r.uri) == Some(old(self).spec_authority()),
            uri_path_and_query(r.uri) == Some(path_and_query_str(path)),
            has_grpc_headers(header_entries(request.spec_metadata()), header_entries(r.headers)),
    {
        let request = request.map(|v: M| stream_once(v));
        self.client_streaming(request, path)
    }

    /// The HTTP/2 request of a server-streaming call: that of a streaming
    /// call whose stream holds the one message.
    pub fn server_streaming<M>(&mut self, request: Request<M>, path: PathAndQuery) -> (r: CallRequest<Once<M, Status>>)
        requires
            has_room_for_grpc_headers(header_entries(request.spec_metadata())),
        ensures
            *final(self) == *old(self),
            uri_scheme(r.uri) == Some(old(self).spec_scheme()),
            uri_authority(r.uri) == Some(old(self).spec_authority()),
            uri_path_and_query(r.uri) == Some(path_and_query_str(path)),
            has_grpc_headers(header_entries(request.spec_metadata()), header_entries(r.headers)),
    {
        let request = request.map(|v: M| stream_once(v));
        self.streaming(request, path)
    }
}

/// The HTTP/2 request of a gRPC call, in parts: where it goes, its headers,
/// and its body.
pub struct CallRequest<B> {
    /// The URI of the method called.
    pub uri: Uri,
    /// The request headers: the metadata and the gRPC request headers.
    pub headers: HeaderMap,
    /// The body: the request's message, or stream of messages.
    pub body: B,
}

impl<B> CallRequest<B> {
    /// The HTTP/2 `POST` request to the URI, with the headers and the body.
    pub fn into_http(self) -> http::Request<B> {
        let request = Request::from_parts(self.headers, self.body);
        request.into_http(self.uri)
    }
}

/// `futures::stream::once` with an `Ok` item: a stream that yields the item
/// and ends. Nothing is stated of the stream, which Verus cannot see into.
#[verifier::external_body]
fn stream_once<M>(item: M) -> Once<M, Status> {
    futures::stream::once(Ok(item))
}

/// The stream of one item of `futures`.
#[verifier::external_type_specification]
#[verifier::external_body]
#[verifier::reject_recursive_types(T)]
#[verifier::reject_recursive_types(E)]
pub struct ExOnce<T, E>(Once<T, E>);

} // verus!
