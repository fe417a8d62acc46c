//! Logic of the example clients: the payloads of the interop tests, and the
//! origin that every request of the hello-world client is sent to.
use vstd::prelude::*;

use vstd::string::StringSliceAdditionalSpecFns;

use crate::header_map_specs::{header_entries, header_map_get, values_at};
use crate::http_specs::header_value_as_bytes;
use crate::metadata_value::bytes_eq;
use crate::names::chars_vec;
use crate::status::first_value_bytes;
use http::HeaderMap;
use crate::uri_specs::{
    path_and_query_as_str, uri_authority, uri_authority_part, uri_from_parts, uri_from_str,
    uri_parse, uri_path_and_query, uri_path_and_query_part, uri_scheme, uri_scheme_part,
};
use http::Uri;

verus! {

/// The payload of an interop test message: its type and its body.
pub struct Payload {
    /// The payload type (compressable by default).
    pub type_: i32,
    /// The body.
    pub body: Vec<u8>,
}

/// The payload that the interop client sends: `size` zero bytes, of the
/// default type.
pub fn client_payload(size: usize) -> (r: Payload)
    ensures
        r.type_ == 0,
        r.body@ == Seq::new(size as nat, |i: int| 0u8),
{
    let mut body: Vec<u8> = Vec::new();
    let mut i: usize = 0;
    while i < size
        invariant
            i <= size,
            body@ == Seq::new(i as nat, |k: int| 0u8),
        decreases size - i,
    {
        body.push(0u8);
        i = i + 1;
        assert(body@ =~= Seq::new(i as nat, |k: int| 0u8));
    }
    Payload { type_: 0, body }
}

/// A service that sends every request to one origin: a URI with a scheme,
/// an authority, and no path but `/`.
pub struct AddOrigin<T> {
    inner: T,
    origin: Uri,
}

/// The origin is usable: it has a scheme and an authority, and its path is
/// none or `/`.
pub open spec fn is_origin(u: Uri) -> bool {
    &&& uri_scheme(u) is Some
    &&& uri_authority(u) is Some
    &&& (uri_path_and_query(u) is None || uri_path_and_query(u) == Some(seq!['/']))
}

/// Wraps `inner` so that its requests go to `origin`, the URI the string
/// spells; where it spells none, the parse error is passed on.
pub fn layer<T>(inner: T, origin: &str) -> (r: Result<AddOrigin<T>, http::uri::InvalidUri>)
    ensures
        r is Ok <==> uri_parse(origin@) is Ok,
        r matches Ok(a) ==> a.spec_inner() == inner && uri_parse(origin@) == Ok::<Uri, http::uri::InvalidUri>(a.spec_origin()),
        r matches Err(e) ==> uri_parse(origin@) == Err::<Uri, http::uri::InvalidUri>(e),
{
    match uri_from_str(origin) {
        Ok(origin) => Ok(AddOrigin { inner, origin }),
        Err(e) => Err(e),
    }
}

impl<T> AddOrigin<T> {
    /// The wrapped service.
    pub closed spec fn spec_inner(&self) -> T {
        self.inner
    }

    /// The origin.
    pub closed spec fn spec_origin(&self) -> Uri {
        self.origin
    }

    /// The wrapped service, to send the rewritten requests through.
    pub fn inner_mut(&mut self) -> (r: &mut T)
        ensures
            *r == old(self).spec_inner(),
            final(self).spec_inner() == *final(r),
            final(self).spec_origin() == old(self).spec_origin(),
    {
        &mut self.inner
    }

    /// Whether the origin is usable: it has a scheme and an authority, and
    /// its path is none or `/`.
    pub fn has_usable_origin(&self) -> (r: bool)
        ensures
            r == is_origin(self.spec_origin()),
    {
        let has_scheme = uri_scheme_part(&self.origin).is_some();
        let has_authority = uri_authority_part(&self.origin).is_some();
        let path_ok = match uri_path_and_query_part(&self.origin) {
            None => true,
            Some(p) => {
                let s = path_and_query_as_str(&p);
                let chars = chars_vec(s);
                let r = chars.len() == 1 && chars[0] == '/';
                proof {
                    if r {
                        assert(chars@ =~= seq!['/']);
                    }
                }
                r
            },
        };
        has_scheme && has_authority && path_ok
    }

    /// The URI of a request sent to the origin: the origin's scheme and
    /// authority, and the request's path and query. The origin must be
    /// usable and the request must have a path.
    pub fn rewrite_uri(&self, uri: &Uri) -> (r: Uri)
        requires
            is_origin(self.spec_origin()),
            uri_path_and_query(*uri) is Some,
        ensures
            uri_scheme(r) == uri_scheme(self.spec_origin()),
            uri_authority(r) == uri_authority(self.spec_origin()),
            uri_path_and_query(r) == uri_path_and_query(*uri),
    {
        let scheme = match uri_scheme_part(&self.origin) {
            Some(s) => s,
            None => vstd::pervasive::unreached(),
        };
        let authority = match uri_authority_part(&self.origin) {
            Some(a) => a,
            None => vstd::pervasive::unreached(),
        };
        let path = match uri_path_and_query_part(uri) {
            Some(p) => p,
            None => vstd::pervasive::unreached(),
        };
        match uri_from_parts(scheme, authority, path) {
            Ok(u) => u,
            Err(_) => vstd::pervasive::unreached(),
        }
    }
}

/// The doorman's answer to a request whose `metadata` field holds
/// `value` (the first one, where there are several): in with the cookie,
/// out without.
pub open spec fn door_reply(value: Option<Seq<u8>>) -> Seq<char> {
    if value == Some("Here is a cookie"@.map_values(|c: char| c as u8)) {
        "Yummy! Please come in."@
    } else {
        "You cannot come in!"@
    }
}

/// The metadata example's doorman: lets in the requests whose `metadata`
/// field holds the text `Here is a cookie`.
pub fn ask_to_enter(metadata: &HeaderMap) -> (r: String)
    ensures
        r@ == door_reply(first_value_bytes(values_at(header_entries(*metadata), "metadata".spec_bytes()))),
{
    let key = "metadata";
    let cookie = "Here is a cookie";
    proof {
        reveal_strlit("metadata");
        reveal_strlit("Here is a cookie");
        assert(vstd::string::is_ascii(key));
        assert(vstd::string::is_ascii(cookie));
    }
    let admitted = match header_map_get(metadata, key) {
        Some(v) => bytes_eq(header_value_as_bytes(v), cookie.as_bytes()),
        None => false,
    };
    proof {
        assert(cookie.spec_bytes() =~= "Here is a cookie"@.map_values(|c: char| c as u8));
    }
    if admitted {
        "Yummy! Please come in.".to_string()
    } else {
        "You cannot come in!".to_string()
    }
}

} // verus!
