//! Declarations of the `http` types that the library passes through, and
//! the trusted contracts of the `http` functions that it calls.
use vstd::prelude::*;
use vstd::string::StringSliceAdditionalSpecFns;

use http::header::{HeaderName, HeaderValue, InvalidHeaderName, InvalidHeaderValue, InvalidHeaderValueBytes};
use bytes::Bytes;
use vstd::utf8::{valid_utf8, decode_utf8};
use http::{HeaderMap, StatusCode};
use http::Request as HttpRequest;
use http::Response as HttpResponse;

verus! {

#[verifier::external_type_specification]
#[verifier::external_body]
pub struct ExHeaderValue(HeaderValue);

/// The bytes that a `HeaderValue` holds (what `HeaderValue::as_bytes` returns).
pub uninterp spec fn header_value_bytes(v: HeaderValue) -> Seq<u8>;

/// Whether a `HeaderValue` is marked sensitive (what `HeaderValue::is_sensitive` returns).
pub uninterp spec fn header_value_sensitive(v: HeaderValue) -> bool;

/// A byte that `HeaderValue::to_str` and `HeaderValue::from_static` accept:
/// a visible ASCII character, space or horizontal tab.
pub open spec fn is_http_visible_byte(b: u8) -> bool {
    (32 <= b && b < 127) || b == 9
}

/// A byte that `HeaderValue::from_bytes` accepts: anything but a control
/// character or DEL, except for horizontal tab.
pub open spec fn is_http_value_byte(b: u8) -> bool {
    (32 <= b && b != 127) || b == 9
}

/// A visible ASCII byte, space included: 32 to 126.
pub open spec fn is_visible_ascii(b: u8) -> bool {
    32 <= b && b < 127
}

/// A byte that a metadata value may hold: 32 to 255, but for 127 (DEL).
pub open spec fn is_valid_value_byte(b: u8) -> bool {
    32 <= b && b != 127
}

/// The bytes of a string made only of ASCII characters.
pub open spec fn ascii_bytes(s: Seq<char>) -> Seq<u8> {
    Seq::new(s.len(), |i: int| s[i] as u8)
}

/// All characters of `s` are visible ASCII.
pub open spec fn is_visible_ascii_str(s: Seq<char>) -> bool {
    forall|i: int| 0 <= i < s.len() ==> (s[i] as u32) < 256 && is_visible_ascii(#[trigger] s[i] as u8)
}

/// All characters of `s` are bytes that `HeaderValue::from_static`
/// accepts.
pub open spec fn is_http_visible_str(s: Seq<char>) -> bool {
    forall|i: int| 0 <= i < s.len() ==> (s[i] as u32) < 256 && is_http_visible_byte(#[trigger] s[i] as u8)
}

/// `HeaderValue::from_static`: checks that every byte is visible ASCII or
/// tab (it panics otherwise) and keeps the bytes as they are, not
/// sensitive.
#[verifier::external_body]
pub fn header_value_from_static(src: &'static str) -> (r: HeaderValue)
    requires
        is_http_visible_str(src@),
    ensures
        header_value_bytes(r) == ascii_bytes(src@),
        !header_value_sensitive(r),
{
    HeaderValue::from_static(src)
}

/// The decimal digits of a number, without leading zeros.
pub open spec fn decimal_digits(n: nat) -> Seq<u8>
    decreases n,
{
    if n < 10 {
        seq![(48 + n) as u8]
    } else {
        decimal_digits(n / 10).push((48 + n % 10) as u8)
    }
}

/// The decimal text of an integer: a minus sign before the digits of a
/// negative one.
pub open spec fn decimal_text(n: int) -> Seq<u8> {
    if n < 0 {
        seq![45u8] + decimal_digits((-n) as nat)
    } else {
        decimal_digits(n as nat)
    }
}

/// `HeaderValue::from(u64)`: the number's decimal text, not sensitive.
#[verifier::external_body]
pub fn header_value_from_u64(n: u64) -> (r: HeaderValue)
    ensures
        header_value_bytes(r) == decimal_text(n as int),
        !header_value_sensitive(r),
{
    HeaderValue::from(n)
}

/// `HeaderValue::from(i64)`: the number's decimal text, not sensitive.
#[verifier::external_body]
pub fn header_value_from_i64(n: i64) -> (r: HeaderValue)
    ensures
        header_value_bytes(r) == decimal_text(n as int),
        !header_value_sensitive(r),
{
    HeaderValue::from(n)
}

/// `HeaderValue::as_bytes`: the bytes of the value.
#[verifier::external_body]
pub fn header_value_as_bytes(v: &HeaderValue) -> (r: &[u8])
    ensures
        r@ == header_value_bytes(*v),
{
    v.as_bytes()
}

/// `HeaderValue::clone`: a value with the same bytes and flag.
#[verifier::external_body]
pub fn header_value_clone(v: &HeaderValue) -> (r: HeaderValue)
    ensures
        header_value_bytes(r) == header_value_bytes(*v),
        header_value_sensitive(r) == header_value_sensitive(*v),
{
    v.clone()
}

/// `HeaderValue::from(HeaderName)`: a value holding the bytes of the name,
/// not sensitive.
#[verifier::external_body]
pub fn header_value_from_name(n: HeaderName) -> (r: HeaderValue)
    ensures
        header_value_bytes(r) == ascii_bytes(header_name_str(n)),
        !header_value_sensitive(r),
{
    HeaderValue::from(n)
}

/// `HeaderValue::is_sensitive`: the sensitivity flag of the value.
#[verifier::external_body]
pub fn header_value_is_sensitive(v: &HeaderValue) -> (r: bool)
    ensures
        r == header_value_sensitive(*v),
{
    v.is_sensitive()
}

#[verifier::external_type_specification]
#[verifier::external_body]
#[verifier::reject_recursive_types(T)]
pub struct ExHeaderMap<T>(HeaderMap<T>);

#[verifier::external_type_specification]
#[verifier::external_body]
pub struct ExStatusCode(StatusCode);

#[verifier::external_type_specification]
#[verifier::external_body]
pub struct ExH2Error(h2::Error);

/// The number of an HTTP status (what `StatusCode::as_u16` returns).
pub uninterp spec fn status_code_number(s: StatusCode) -> u16;

/// `StatusCode::as_u16`: the number of the status.
#[verifier::external_body]
pub fn status_code_as_u16(s: &StatusCode) -> (r: u16)
    ensures
        r == status_code_number(*s),
        100 <= r <= 999,
{
    s.as_u16()
}

/// The HTTP/2 reason code of an `h2::Error` (what `Error::reason` returns,
/// as a number).
pub uninterp spec fn h2_error_reason_code(e: h2::Error) -> Option<u32>;

/// `h2::Error::reason`: the reason code of a protocol error, `None` for
/// other errors.
#[verifier::external_body]
pub fn h2_error_reason(e: &h2::Error) -> (r: Option<u32>)
    ensures
        r == h2_error_reason_code(*e),
{
    e.reason().map(|reason| reason.into())
}

#[verifier::external_type_specification]
#[verifier::external_body]
pub struct ExHeaderName(HeaderName);

#[verifier::external_type_specification]
#[verifier::external_body]
pub struct ExInvalidHeaderName(InvalidHeaderName);

#[verifier::external_type_specification]
#[verifier::external_body]
pub struct ExInvalidHeaderValue(InvalidHeaderValue);

/// A byte that may stand in a header name, in either case.
pub open spec fn is_name_byte(b: u8) -> bool {
    b == 33 || b == 34 || b == 35 || b == 36 || b == 37 || b == 38 || b == 39
        || b == 42 || b == 43 || b == 45 || b == 46
        || (48 <= b && b <= 57)
        || (65 <= b && b <= 90)
        || b == 94 || b == 95 || b == 96
        || (97 <= b && b <= 122)
        || b == 124 || b == 126
}

/// A byte that may stand in a header name in its normalized, lower-case form.
pub open spec fn is_lower_name_byte(b: u8) -> bool {
    is_name_byte(b) && !(65 <= b && b <= 90)
}

/// ASCII lower-casing of a byte.
pub open spec fn lower_byte(b: u8) -> u8 {
    if 65 <= b && b <= 90 { (b + 32) as u8 } else { b }
}

/// The characters that the bytes of an ASCII string stand for.
pub open spec fn chars_of(b: Seq<u8>) -> Seq<char> {
    Seq::new(b.len(), |i: int| b[i] as char)
}

/// A valid header name, in any case: not empty, and only name bytes.
pub open spec fn is_name_bytes(b: Seq<u8>) -> bool {
    b.len() > 0 && forall|i: int| 0 <= i < b.len() ==> is_name_byte(#[trigger] b[i])
}

/// A header name in normalized form, as characters.
pub open spec fn is_lower_name(s: Seq<char>) -> bool {
    s.len() > 0 && forall|i: int| 0 <= i < s.len() ==> (#[trigger] s[i] as u32) < 128 && is_lower_name_byte(s[i] as u8)
}

/// What `http`'s name table makes of a byte: a header name byte in lower
/// case, and a zero byte for any byte that may not stand in a name.
pub open spec fn header_char(b: u8) -> u8 {
    if is_name_byte(b) { lower_byte(b) } else { 0 }
}

/// A name that an `http` header name may hold: not empty, shorter than
/// 64 KiB, and only lower-case header name bytes, but for zero bytes in a
/// name of 64 bytes or more (`http` does not check such a name byte by byte
/// but maps it through its name table, as `h2` does with received names).
pub open spec fn is_http_name(s: Seq<char>) -> bool {
    &&& 0 < s.len() < 65536
    &&& forall|i: int| 0 <= i < s.len() ==> (#[trigger] s[i] as u32) < 128
            && (is_lower_name_byte(s[i] as u8) || (s[i] == '\0' && s.len() >= 64))
}

/// A character whose code is below 128 is ASCII.
proof fn lemma_char_ascii(c: char)
    requires
        (c as u32) < 128,
    ensures
        '\0' <= c <= '\u{7f}',
{
}

/// The name an `http` header name holds is ASCII.
pub proof fn lemma_http_name_ascii(s: Seq<char>)
    requires
        is_http_name(s),
    ensures
        vstd::utf8::is_ascii_chars(s),
{
    assert forall|i: int| 0 <= i < s.len() implies '\0' <= #[trigger] s[i] <= '\u{7f}' by {
        lemma_char_ascii(s[i]);
    }
}

/// The normalized form of a header name given as bytes: lower-cased.
pub open spec fn normalized_name(b: Seq<u8>) -> Seq<char> {
    Seq::new(b.len(), |i: int| lower_byte(b[i]) as char)
}

/// The name that a `HeaderName` holds (what `HeaderName::as_str` returns).
pub uninterp spec fn header_name_str(n: HeaderName) -> Seq<char>;

/// `HeaderName::from_bytes`: a name for any non-empty run of header name
/// bytes, normalized to lower case; an error otherwise. It panics on
/// inputs of 64 KiB or more.
#[verifier::external_body]
pub fn header_name_from_bytes(src: &[u8]) -> (r: Result<HeaderName, InvalidHeaderName>)
    requires
        src@.len() < 65536,
    ensures
        r is Ok <==> is_name_bytes(src@),
        r matches Ok(n) ==> header_name_str(n) == normalized_name(src@),
{
    HeaderName::from_bytes(src)
}

/// `HeaderName::from_static`: the name of a static string that is already
/// in normalized form (it panics on any other).
#[verifier::external_body]
pub fn header_name_from_static(src: &'static str) -> (r: HeaderName)
    requires
        is_lower_name(src@),
        src@.len() < 65536,
    ensures
        header_name_str(r) == src@,
{
    HeaderName::from_static(src)
}

/// `HeaderName::as_str`: the name. Every way `http` has to make a name
/// keeps it within `is_http_name`: every name is checked to be shorter than
/// 64 KiB; a name shorter than 64 bytes is made of name bytes, lower-cased;
/// in a longer one `from_bytes` and `from_static` refuse any other byte,
/// while `from_lowercase` (which `h2` uses) lets a zero byte through, and a
/// map given a string key to add (`entry`, or `insert` with a static string)
/// turns each byte that may not stand in a name into a zero byte.
#[verifier::external_body]
pub fn header_name_as_str(n: &HeaderName) -> (r: &str)
    ensures
        r@ == header_name_str(*n),
        is_http_name(r@),
{
    n.as_str()
}

/// `HeaderName::clone`: the same name.
#[verifier::external_body]
pub fn header_name_clone(n: &HeaderName) -> (r: HeaderName)
    ensures
        header_name_str(r) == header_name_str(*n),
{
    n.clone()
}

/// `HeaderValue::from_bytes`: a value holding exactly `src`, not sensitive,
/// if every byte is valid in a header value; an error otherwise.
#[verifier::external_body]
pub fn header_value_from_bytes(src: &[u8]) -> (r: Result<HeaderValue, InvalidHeaderValue>)
    ensures
        r is Ok <==> (forall|i: int| 0 <= i < src@.len() ==> is_http_value_byte(#[trigger] src@[i])),
        r matches Ok(v) ==> header_value_bytes(v) == src@ && !header_value_sensitive(v),
{
    HeaderValue::from_bytes(src)
}

/// `HeaderValue::from_str`: a value holding the UTF-8 bytes of `src`, not
/// sensitive, if every one of those bytes is valid in a header value; an
/// error otherwise.
#[verifier::external_body]
pub fn header_value_from_str(src: &str) -> (r: Result<HeaderValue, InvalidHeaderValue>)
    ensures
        r is Ok <==> (forall|i: int| 0 <= i < src.spec_bytes().len() ==> is_http_value_byte(#[trigger] src.spec_bytes()[i])),
        r matches Ok(v) ==> header_value_bytes(v) == src.spec_bytes() && !header_value_sensitive(v),
{
    HeaderValue::from_str(src)
}

/// `HeaderValue::set_sensitive`: sets the flag, the bytes stay.
#[verifier::external_body]
pub fn header_value_set_sensitive(v: &mut HeaderValue, sensitive: bool)
    ensures
        header_value_bytes(*final(v)) == header_value_bytes(*old(v)),
        header_value_sensitive(*final(v)) == sensitive,
{
    v.set_sensitive(sensitive)
}

#[verifier::external_type_specification]
#[verifier::external_body]
pub struct ExInvalidHeaderValueBytes(InvalidHeaderValueBytes);

#[verifier::external_type_specification]
#[verifier::external_body]
pub struct ExBytes(Bytes);

#[verifier::external_type_specification]
#[verifier::external_body]
pub struct ExUtf8Error(core::str::Utf8Error);

/// The bytes that a `Bytes` buffer holds.
pub uninterp spec fn bytes_contents(b: Bytes) -> Seq<u8>;

/// `Bytes::from(&[u8])`: a buffer holding a copy of the slice.
#[verifier::external_body]
pub fn bytes_from_slice(src: &[u8]) -> (r: Bytes)
    ensures
        bytes_contents(r) == src@,
{
    Bytes::from(src)
}

/// `Bytes::as_ref`: the bytes the buffer holds.
#[verifier::external_body]
pub fn bytes_as_slice(b: &Bytes) -> (r: &[u8])
    ensures
        r@ == bytes_contents(*b),
{
    b.as_ref()
}

/// `HeaderValue::from_shared`: like `from_bytes`, over a shared buffer.
#[verifier::external_body]
pub fn header_value_from_shared(src: Bytes) -> (r: Result<HeaderValue, InvalidHeaderValueBytes>)
    ensures
        r is Ok <==> (forall|i: int| 0 <= i < bytes_contents(src).len() ==> is_http_value_byte(#[trigger] bytes_contents(src)[i])),
        r matches Ok(v) ==> header_value_bytes(v) == bytes_contents(src) && !header_value_sensitive(v),
{
    HeaderValue::from_shared(src)
}

/// `std::str::from_utf8`: the string that valid UTF-8 bytes encode, an
/// error for any other bytes.
#[verifier::external_body]
pub fn str_from_utf8(b: &[u8]) -> (r: Result<&str, core::str::Utf8Error>)
    ensures
        r is Ok <==> valid_utf8(b@),
        r matches Ok(s) ==> s.spec_bytes() == b@,
{
    core::str::from_utf8(b)
}

/// A hexadecimal digit, in lower case.
pub open spec fn hex_digit(d: u8) -> char {
    if d < 10 { (48 + d) as char } else { (87 + d) as char }
}

/// A byte in lower-case hexadecimal, without leading zeros.
pub open spec fn lower_hex(b: u8) -> Seq<char> {
    if b < 16 { seq![hex_digit(b)] } else { seq![hex_digit(b / 16), hex_digit(b % 16)] }
}

/// How the debug form of a header value shows one byte: a double quote
/// escaped by a backslash, any byte that is neither visible ASCII nor a tab
/// as `\x` and its hexadecimal value, and any other byte (a tab too) as
/// itself.
pub open spec fn debug_escape(b: u8) -> Seq<char> {
    if b == 34 {
        seq!['\\', '"']
    } else if !is_http_visible_byte(b) {
        seq!['\\', 'x'] + lower_hex(b)
    } else {
        seq![b as char]
    }
}

/// The escaped form of a run of bytes.
pub open spec fn debug_escaped(bytes: Seq<u8>) -> Seq<char>
    decreases bytes.len(),
{
    if bytes.len() == 0 {
        Seq::empty()
    } else {
        debug_escape(bytes[0]) + debug_escaped(bytes.drop_first())
    }
}

/// The debug form of a header value: `Sensitive` for a sensitive value,
/// otherwise its escaped bytes between double quotes.
pub open spec fn value_debug_text(bytes: Seq<u8>, sensitive: bool) -> Seq<char> {
    if sensitive {
        seq!['S', 'e', 'n', 's', 'i', 't', 'i', 'v', 'e']
    } else {
        seq!['"'] + debug_escaped(bytes) + seq!['"']
    }
}

/// The `Debug` form of a `HeaderValue`, as a string.
#[verifier::external_body]
pub fn header_value_debug(v: &HeaderValue) -> (r: String)
    ensures
        r@ == value_debug_text(header_value_bytes(*v), header_value_sensitive(*v)),
{
    format!("{:?}", v)
}

/// ASCII bytes are valid UTF-8 and stand for the characters with their codes.
pub proof fn lemma_ascii_utf8(b: Seq<u8>)
    requires
        forall|i: int| 0 <= i < b.len() ==> #[trigger] b[i] < 128,
    ensures
        valid_utf8(b),
        decode_utf8(b) == chars_of(b),
    decreases b.len(),
{
    if b.len() > 0 {
        let rest = b.drop_first();
        let b0 = b[0];
        assert(b0 & 0x7F == b0) by (bit_vector)
            requires
                b0 < 128,
        ;
        assert(vstd::utf8::decode_first_scalar(b) == b0 as u32);
        assert(vstd::utf8::pop_first_scalar(b) =~= rest);
        lemma_ascii_utf8(rest);
        assert(chars_of(b) =~= seq![b[0] as char] + chars_of(rest));
    } else {
        assert(chars_of(b) =~= Seq::<char>::empty());
    }
}

#[verifier::external_type_specification]
#[verifier::external_body]
#[verifier::reject_recursive_types(T)]
pub struct ExRequest<T>(HttpRequest<T>);

#[verifier::external_type_specification]
#[verifier::external_body]
#[verifier::reject_recursive_types(T)]
pub struct ExResponse<T>(HttpResponse<T>);

#[verifier::external_type_specification]
#[verifier::external_body]
pub struct ExResponseParts(http::response::Parts);

#[verifier::external_type_specification]
#[verifier::external_body]
pub struct ExRequestParts(http::request::Parts);

#[verifier::external_type_specification]
#[verifier::external_body]
pub struct ExUri(http::Uri);

#[verifier::external_type_specification]
#[verifier::external_body]
pub struct ExVersion(http::Version);

#[verifier::external_type_specification]
#[verifier::external_body]
pub struct ExMethod(http::Method);

/// `http::Version::HTTP_2`.
#[verifier::external_body]
pub fn version_http2() -> http::Version {
    http::Version::HTTP_2
}

/// `http::Method::POST`.
#[verifier::external_body]
pub fn method_post() -> http::Method {
    http::Method::POST
}

/// `http::Request::new`: a request with the given body. Nothing is stated
/// of the request: the body is of any type, which no name here can follow.
#[verifier::external_body]
pub fn http_request_new<T>(body: T) -> http::Request<T> {
    http::Request::new(body)
}

/// `http::Request::version_mut`, assigned to.
#[verifier::external_body]
pub fn http_request_set_version<T>(r: &mut http::Request<T>, v: http::Version) {
    *r.version_mut() = v;
}

/// `http::Request::method_mut`, assigned to.
#[verifier::external_body]
pub fn http_request_set_method<T>(r: &mut http::Request<T>, m: http::Method) {
    *r.method_mut() = m;
}

/// `http::Request::uri_mut`, assigned to.
#[verifier::external_body]
pub fn http_request_set_uri<T>(r: &mut http::Request<T>, u: http::Uri) {
    *r.uri_mut() = u;
}

/// `http::Request::headers_mut`, assigned to.
#[verifier::external_body]
pub fn http_request_set_headers<T>(r: &mut http::Request<T>, h: HeaderMap) {
    *r.headers_mut() = h;
}

/// `http::Request::into_parts`: the head and the body of a request. Nothing
/// is stated of them: the request is of any body type, which no name here
/// can follow.
#[verifier::external_body]
pub fn http_request_into_parts<T>(r: http::Request<T>) -> (http::request::Parts, T) {
    r.into_parts()
}

/// The headers of a request head (its public `headers` field).
#[verifier::external_body]
pub fn request_parts_headers(p: http::request::Parts) -> HeaderMap {
    p.headers
}

/// `http::Response::new`: a response with the given body.
#[verifier::external_body]
pub fn http_response_new<T>(body: T) -> http::Response<T> {
    http::Response::new(body)
}

/// `http::Response::version_mut`, assigned to.
#[verifier::external_body]
pub fn http_response_set_version<T>(r: &mut http::Response<T>, v: http::Version) {
    *r.version_mut() = v;
}

/// `http::Response::into_parts`: the head and the body of a response.
/// Nothing is stated of them: the response is of any body type, which no
/// name here can follow.
#[verifier::external_body]
pub fn http_response_into_parts<T>(r: http::Response<T>) -> (http::response::Parts, T) {
    r.into_parts()
}

/// `http::Response::from_parts`: the response with the given head and body.
#[verifier::external_body]
pub fn http_response_from_parts<T>(head: http::response::Parts, body: T) -> http::Response<T> {
    http::Response::from_parts(head, body)
}

} // verus!
