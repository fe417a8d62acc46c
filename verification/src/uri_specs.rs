//! Declarations of the `http` URI types that the client passes through, and
//! the trusted contracts of the URI functions that it calls.
use vstd::prelude::*;

use http::uri::{Authority, InvalidUriParts, PathAndQuery, Scheme};
use http::Uri;

verus! {

#[verifier::external_type_specification]
#[verifier::external_body]
pub struct ExScheme(Scheme);

#[verifier::external_type_specification]
#[verifier::external_body]
pub struct ExAuthority(Authority);

#[verifier::external_type_specification]
#[verifier::external_body]
pub struct ExPathAndQuery(PathAndQuery);

#[verifier::external_type_specification]
#[verifier::external_body]
pub struct ExInvalidUriParts(InvalidUriParts);

/// The text of a scheme (what `Scheme::as_str` returns).
pub uninterp spec fn scheme_str(s: Scheme) -> Seq<char>;

/// The text of an authority (what `Authority::as_str` returns).
pub uninterp spec fn authority_str(a: Authority) -> Seq<char>;

/// The text of a path and query (what `PathAndQuery::as_str` returns).
pub uninterp spec fn path_and_query_str(p: PathAndQuery) -> Seq<char>;

/// The scheme of a URI, if it has one (what `Uri::scheme_part` returns, as
/// text).
pub uninterp spec fn uri_scheme(u: Uri) -> Option<Seq<char>>;

/// The authority of a URI, if it has one (what `Uri::authority_part`
/// returns, as text).
pub uninterp spec fn uri_authority(u: Uri) -> Option<Seq<char>>;

/// The path and query of a URI, if it has them (what
/// `Uri::path_and_query` returns, as text).
pub uninterp spec fn uri_path_and_query(u: Uri) -> Option<Seq<char>>;

/// `Uri::scheme_part`, cloned.
#[verifier::external_body]
pub fn uri_scheme_part(u: &Uri) -> (r: Option<Scheme>)
    ensures
        match r {
            Some(s) => uri_scheme(*u) == Some(scheme_str(s)),
            None => uri_scheme(*u) is None,
        },
{
    u.scheme_part().cloned()
}

/// `Uri::authority_part`, cloned.
#[verifier::external_body]
pub fn uri_authority_part(u: &Uri) -> (r: Option<Authority>)
    ensures
        match r {
            Some(a) => uri_authority(*u) == Some(authority_str(a)),
            None => uri_authority(*u) is None,
        },
{
    u.authority_part().cloned()
}

/// `Scheme::clone`.
#[verifier::external_body]
pub fn scheme_clone(s: &Scheme) -> (r: Scheme)
    ensures
        scheme_str(r) == scheme_str(*s),
{
    s.clone()
}

/// `Authority::clone`.
#[verifier::external_body]
pub fn authority_clone(a: &Authority) -> (r: Authority)
    ensures
        authority_str(r) == authority_str(*a),
{
    a.clone()
}

/// `Uri::from_parts` with a scheme, an authority and a path and query: with
/// all three given it always succeeds, and the URI has them.
#[verifier::external_body]
pub fn uri_from_parts(scheme: Scheme, authority: Authority, path: PathAndQuery) -> (r: Result<Uri, InvalidUriParts>)
    ensures
        r is Ok,
        r matches Ok(u) ==> uri_scheme(u) == Some(scheme_str(scheme))
            && uri_authority(u) == Some(authority_str(authority))
            && uri_path_and_query(u) == Some(path_and_query_str(path)),
{
    let mut parts = http::uri::Parts::default();
    parts.scheme = Some(scheme);
    parts.authority = Some(authority);
    parts.path_and_query = Some(path);
    Uri::from_parts(parts)
}

#[verifier::external_type_specification]
#[verifier::external_body]
pub struct ExInvalidUri(http::uri::InvalidUri);

/// What `Uri::from_str` gives for a string: the URI it spells, or the
/// error that says why it spells none.
pub uninterp spec fn uri_parse(s: Seq<char>) -> Result<Uri, http::uri::InvalidUri>;

/// `Uri::from_str`: the URI a string spells, an error where it spells none.
/// Which URI or error it is, is named by `uri_parse`; what the URI holds is
/// given by the names of its parts.
#[verifier::external_body]
pub fn uri_from_str(s: &str) -> (r: Result<Uri, http::uri::InvalidUri>)
    ensures
        r == uri_parse(s@),
{
    s.parse::<Uri>()
}

/// `Uri::path_and_query`, cloned.
#[verifier::external_body]
pub fn uri_path_and_query_part(u: &Uri) -> (r: Option<PathAndQuery>)
    ensures
        match r {
            Some(p) => uri_path_and_query(*u) == Some(path_and_query_str(p)),
            None => uri_path_and_query(*u) is None,
        },
{
    u.path_and_query().cloned()
}

/// `PathAndQuery::as_str`.
#[verifier::external_body]
pub fn path_and_query_as_str(p: &PathAndQuery) -> (r: &str)
    ensures
        r@ == path_and_query_str(*p),
{
    p.as_str()
}

} // verus!
