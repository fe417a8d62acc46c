//! A gRPC request: a message with its metadata.
use vstd::prelude::*;

use crate::header_map_specs::{header_entries, header_map_new};
use crate::http_specs::{
    http_request_into_parts, http_request_new, http_request_set_headers, http_request_set_method,
    http_request_set_uri, http_request_set_version, method_post, request_parts_headers, version_http2,
};
use http::HeaderMap;
use http::header::HeaderValue;

verus! {

/// A gRPC request: a message and the custom metadata sent with it.
pub struct Request<T> {
    metadata: HeaderMap,
    message: T,
}

impl<T> Request<T> {
    /// The message.
    pub closed spec fn spec_message(&self) -> T {
        self.message
    }

    /// The custom metadata.
    pub closed spec fn spec_metadata(&self) -> HeaderMap {
        self.metadata
    }

    /// Create a new gRPC request, with no metadata.
    pub fn new(message: T) -> (r: Request<T>)
        ensures
            r.spec_message() == message,
            header_entries(r.spec_metadata()) == Seq::<(Seq<char>, Seq<HeaderValue>)>::empty(),
    {
        Request { metadata: header_map_new(), message }
    }

    /// Get a reference to the message
    pub fn get_ref(&self) -> (r: &T)
        ensures
            *r == self.spec_message(),
    {
        &self.message
    }

    /// Get a mutable reference to the message
    pub fn get_mut(&mut self) -> (r: &mut T)
        ensures
            *r == old(self).spec_message(),
            final(self).spec_message() == *final(r),
            final(self).spec_metadata() == old(self).spec_metadata(),
    {
        &mut self.message
    }

    /// Get a reference to the custom request metadata.
    pub fn metadata(&self) -> (r: &HeaderMap)
        ensures
            *r == self.spec_metadata(),
    {
        &self.metadata
    }

    /// Get a mutable reference to the request metadata.
    pub fn metadata_mut(&mut self) -> (r: &mut HeaderMap)
        ensures
            *r == old(self).spec_metadata(),
            final(self).spec_metadata() == *final(r),
            final(self).spec_message() == old(self).spec_message(),
    {
        &mut self.metadata
    }

    /// A request with the given metadata and message.
    pub fn from_parts(metadata: HeaderMap, message: T) -> (r: Request<T>)
        ensures
            r.spec_metadata() == metadata,
            r.spec_message() == message,
    {
        Request { metadata, message }
    }

    /// The metadata and the message.
    pub fn into_parts(self) -> (r: (HeaderMap, T))
        ensures
            r.0 == self.spec_metadata(),
            r.1 == self.spec_message(),
    {
        (self.metadata, self.message)
    }

    /// Consumes `self`, returning the message
    pub fn into_inner(self) -> (r: T)
        ensures
            r == self.spec_message(),
    {
        self.message
    }

    /// Convert an HTTP request to a gRPC request: its headers become the
    /// metadata and its body the message.
    pub fn from_http(http: http::Request<T>) -> (r: Request<T>) {
        let (head, message) = http_request_into_parts(http);
        Request { metadata: request_parts_headers(head), message }
    }

    /// Convert a gRPC request to an HTTP/2 `POST` request to `uri`, with the
    /// metadata as its headers and the message as its body.
    pub fn into_http(self, uri: http::Uri) -> http::Request<T> {
        let mut request = http_request_new(self.message);
        http_request_set_version(&mut request, version_http2());
        http_request_set_method(&mut request, method_post());
        http_request_set_uri(&mut request, uri);
        http_request_set_headers(&mut request, self.metadata);
        request
    }

    /// A request with the message mapped by `f` and the same metadata.
    pub fn map<F, U>(self, f: F) -> (r: Request<U>)
        where
            F: FnOnce(T) -> U,
        requires
            f.requires((self.spec_message(),)),
        ensures
            f.ensures((self.spec_message(),), r.spec_message()),
            r.spec_metadata() == self.spec_metadata(),
    {
        let message = f(self.message);
        Request { metadata: self.metadata, message }
    }
}

} // verus!
