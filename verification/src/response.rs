//! A gRPC response: a message with the head of the HTTP response.
use vstd::prelude::*;

use crate::http_specs::{
    http_response_from_parts, http_response_into_parts, http_response_new,
    http_response_set_version, version_http2,
};

verus! {

/// A gRPC response: the head of an HTTP/2 response and a message.
pub struct Response<T> {
    head: http::response::Parts,
    message: T,
}

impl<T> Response<T> {
    /// The message.
    pub closed spec fn spec_message(&self) -> T {
        self.message
    }

    /// The head of the HTTP response.
    pub closed spec fn spec_head(&self) -> http::response::Parts {
        self.head
    }

    /// A new gRPC response with the message, as an HTTP/2 response.
    pub fn new(message: T) -> (r: Response<T>)
        ensures
            r.spec_message() == message,
    {
        let mut res = http_response_new(());
        http_response_set_version(&mut res, version_http2());
        let (head, _) = http_response_into_parts(res);
        Response { head, message }
    }

    /// Get a reference to the message
    pub fn get_ref(&self) -> (r: &T)
        ensures
            *r == self.spec_message(),
    {
        &self.message
    }

    /// Get a mutable reference to the message
    pub fn get_mut(&mut self) -> (r: &mut T)
        ensures
            *r == old(self).spec_message(),
            final(self).spec_message() == *final(r),
            final(self).spec_head() == old(self).spec_head(),
    {
        &mut self.message
    }

    /// Consumes `self`, returning the message
    pub fn into_inner(self) -> (r: T)
        ensures
            r == self.spec_message(),
    {
        self.message
    }

    /// The gRPC response that an HTTP response stands for: its head, and
    /// its body as the message.
    pub fn from_http(res: http::Response<T>) -> (r: Response<T>) {
        let (head, message) = http_response_into_parts(res);
        Response { head, message }
    }

    /// The HTTP response with the head and the message as its body.
    pub fn into_http(self) -> http::Response<T> {
        http_response_from_parts(self.head, self.message)
    }

    /// A response with the message mapped by `f` and the same head.
    pub fn map<F, U>(self, f: F) -> (r: Response<U>)
        where
            F: FnOnce(T) -> U,
        requires
            f.requires((self.spec_message(),)),
        ensures
            f.ensures((self.spec_message(),), r.spec_message()),
            r.spec_head() == self.spec_head(),
    {
        let message = f(self.message);
        Response { head: self.head, message }
    }
}

} // verus!
