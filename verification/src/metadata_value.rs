//! Values of custom metadata fields.
use vstd::prelude::*;
use vstd::string::StringSliceAdditionalSpecFns;

use crate::http_specs::{
    ascii_bytes, bytes_contents, chars_of, header_value_as_bytes, header_value_bytes,
    header_value_clone, header_value_debug, header_value_from_bytes, header_value_from_name,
    header_value_from_shared, header_value_from_static, header_value_from_str,
    header_value_is_sensitive, header_value_sensitive, header_value_set_sensitive,
    is_valid_value_byte, is_visible_ascii, is_visible_ascii_str, lemma_ascii_utf8, str_from_utf8, bytes_as_slice, decimal_text, header_value_from_i64, header_value_from_u64,
    value_debug_text,
};
use crate::metadata_key::MetadataKey;
use bytes::Bytes;
use http::header::HeaderValue;

verus! {

/// Represents a custom metadata field value.
///
/// `MetadataValue` is used as the `MetadataMap` value.
pub struct MetadataValue {
    pub(crate) inner: HeaderValue,
}

/// A possible error when converting a `MetadataValue` from a string or byte
/// slice.
#[derive(Debug)]
pub struct InvalidMetadataValue {
    _priv: (),
}

/// A possible error when converting a `MetadataValue` from a string or byte
/// slice.
#[derive(Debug)]
pub struct InvalidMetadataValueBytes(InvalidMetadataValue);

/// A possible error when converting a `MetadataValue` to a string
/// representation.
///
/// Metadata field values may contain opaque bytes, in which case it is not
/// possible to represent the value as a string.
#[derive(Debug)]
pub struct ToStrError {
    _priv: (),
}

/// Every byte of `b` is valid in a metadata value.
pub open spec fn is_valid_value(b: Seq<u8>) -> bool {
    forall|i: int| 0 <= i < b.len() ==> is_valid_value_byte(#[trigger] b[i])
}

/// Every byte of `b` is visible ASCII.
pub open spec fn is_visible_value(b: Seq<u8>) -> bool {
    forall|i: int| 0 <= i < b.len() ==> is_visible_ascii(#[trigger] b[i])
}

impl View for MetadataValue {
    type V = Seq<u8>;

    /// The bytes of the value.
    closed spec fn view(&self) -> Seq<u8> {
        header_value_bytes(self.inner)
    }
}

impl MetadataValue {
    /// Whether the value is marked sensitive.
    pub closed spec fn spec_is_sensitive(&self) -> bool {
        header_value_sensitive(self.inner)
    }

    /// The header value with the same bytes and sensitivity.
    pub fn to_header_value(&self) -> (r: HeaderValue)
        ensures
            header_value_bytes(r) == self@,
            header_value_sensitive(r) == self.spec_is_sensitive(),
    {
        header_value_clone(&self.inner)
    }

    /// The metadata value that holds a header value.
    pub closed spec fn wrap(v: HeaderValue) -> MetadataValue {
        MetadataValue { inner: v }
    }

    /// The header value that a metadata value holds.
    pub closed spec fn unwrap(self) -> HeaderValue {
        self.inner
    }

    /// A metadata value holds a header value with its bytes and flag, and
    /// holding is one to one.
    pub proof fn lemma_wrap(v: HeaderValue, m: MetadataValue)
        ensures
            MetadataValue::wrap(v)@ == header_value_bytes(v),
            MetadataValue::wrap(v).spec_is_sensitive() == header_value_sensitive(v),
            MetadataValue::wrap(v).unwrap() == v,
            MetadataValue::wrap(m.unwrap()) == m,
            header_value_bytes(m.unwrap()) == m@,
            header_value_sensitive(m.unwrap()) == m.spec_is_sensitive(),
    {
    }

    /// The metadata value that holds a header value.
    pub fn from_header_value(v: HeaderValue) -> (r: MetadataValue)
        ensures
            r == MetadataValue::wrap(v),
            r@ == header_value_bytes(v),
            r.spec_is_sensitive() == header_value_sensitive(v),
    {
        MetadataValue { inner: v }
    }

    /// The header value that this metadata value holds.
    pub fn into_header_value(self) -> (r: HeaderValue)
        ensures
            r == self.unwrap(),
            header_value_bytes(r) == self@,
            header_value_sensitive(r) == self.spec_is_sensitive(),
    {
        self.inner
    }

    /// Converts a static string to a `MetadataValue`. Only visible ASCII
    /// characters (32-126) are permitted.
    pub fn from_static(src: &'static str) -> (r: MetadataValue)
        requires
            is_visible_ascii_str(src@),
        ensures
            r@ == ascii_bytes(src@),
            !r.spec_is_sensitive(),
    {
        MetadataValue { inner: header_value_from_static(src) }
    }

    /// Attempts to convert a string to a `MetadataValue`: the string's bytes,
    /// if all of them are visible ASCII (32-126).
    pub fn from_str(src: &str) -> (r: Result<MetadataValue, InvalidMetadataValue>)
        ensures
            r is Ok <==> is_visible_value(src.spec_bytes()),
            r matches Ok(v) ==> v@ == src.spec_bytes() && !v.spec_is_sensitive(),
    {
        if !all_visible(src.as_bytes()) {
            return Err(InvalidMetadataValue { _priv: () });
        }
        match header_value_from_str(src) {
            Ok(v) => Ok(MetadataValue { inner: v }),
            Err(_) => Err(InvalidMetadataValue { _priv: () }),
        }
    }

    /// The decimal text of a number, as a value.
    pub fn from_u64(n: u64) -> (r: MetadataValue)
        ensures
            r@ == decimal_text(n as int),
            !r.spec_is_sensitive(),
    {
        MetadataValue { inner: header_value_from_u64(n) }
    }

    /// The decimal text of a number, as a value.
    pub fn from_i64(n: i64) -> (r: MetadataValue)
        ensures
            r@ == decimal_text(n as int),
            !r.spec_is_sensitive(),
    {
        MetadataValue { inner: header_value_from_i64(n) }
    }

    /// The decimal text of a number, as a value.
    pub fn from_u32(n: u32) -> (r: MetadataValue)
        ensures
            r@ == decimal_text(n as int),
            !r.spec_is_sensitive(),
    {
        MetadataValue::from_u64(n as u64)
    }

    /// The decimal text of a number, as a value.
    pub fn from_i32(n: i32) -> (r: MetadataValue)
        ensures
            r@ == decimal_text(n as int),
            !r.spec_is_sensitive(),
    {
        MetadataValue::from_i64(n as i64)
    }

    /// The decimal text of a number, as a value.
    pub fn from_u16(n: u16) -> (r: MetadataValue)
        ensures
            r@ == decimal_text(n as int),
            !r.spec_is_sensitive(),
    {
        MetadataValue::from_u64(n as u64)
    }

    /// The decimal text of a number, as a value.
    pub fn from_i16(n: i16) -> (r: MetadataValue)
        ensures
            r@ == decimal_text(n as int),
            !r.spec_is_sensitive(),
    {
        MetadataValue::from_i64(n as i64)
    }

    /// Converts a `MetadataKey` into a `MetadataValue`: the value holds the
    /// bytes of the key's name.
    pub fn from_name(name: MetadataKey) -> (r: MetadataValue)
        ensures
            r@ == ascii_bytes(name@),
            !r.spec_is_sensitive(),
    {
        MetadataValue { inner: header_value_from_name(name.into_header_name()) }
    }

    /// Attempts to convert a byte slice to a `MetadataValue`. Only byte
    /// values between 32 and 255 (inclusive) are permitted, excluding byte
    /// 127 (DEL).
    pub fn from_bytes(src: &[u8]) -> (r: Result<MetadataValue, InvalidMetadataValue>)
        ensures
            r is Ok <==> is_valid_value(src@),
            r matches Ok(v) ==> v@ == src@ && !v.spec_is_sensitive(),
    {
        if !all_valid(src) {
            return Err(InvalidMetadataValue { _priv: () });
        }
        match header_value_from_bytes(src) {
            Ok(v) => Ok(MetadataValue { inner: v }),
            Err(_) => Err(InvalidMetadataValue { _priv: () }),
        }
    }

    /// Attempts to convert a `Bytes` buffer to a `MetadataValue`, with the
    /// same rule as `from_bytes`.
    pub fn from_shared(src: Bytes) -> (r: Result<MetadataValue, InvalidMetadataValueBytes>)
        ensures
            r is Ok <==> is_valid_value(bytes_contents(src)),
            r matches Ok(v) ==> v@ == bytes_contents(src) && !v.spec_is_sensitive(),
    {
        if !all_valid(bytes_as_slice(&src)) {
            return Err(InvalidMetadataValueBytes(InvalidMetadataValue { _priv: () }));
        }
        match header_value_from_shared(src) {
            Ok(v) => Ok(MetadataValue { inner: v }),
            Err(_) => Err(InvalidMetadataValueBytes(InvalidMetadataValue { _priv: () })),
        }
    }

    /// Yields a `&str` slice if the `MetadataValue` only contains visible
    /// ASCII chars.
    pub fn to_str(&self) -> (r: Result<&str, ToStrError>)
        ensures
            r is Ok <==> is_visible_value(self@),
            r matches Ok(s) ==> s@ == chars_of(self@),
    {
        let bytes = header_value_as_bytes(&self.inner);
        let mut i: usize = 0;
        while i < bytes.len()
            invariant
                i <= bytes@.len(),
                bytes@ == self@,
                forall|j: int| 0 <= j < i ==> is_visible_ascii(#[trigger] bytes@[j]),
            decreases bytes@.len() - i,
        {
            let b = bytes[i];
            if !(b >= 32 && b < 127) {
                return Err(ToStrError { _priv: () });
            }
            i = i + 1;
        }
        proof {
            lemma_ascii_utf8(bytes@);
        }
        match str_from_utf8(bytes) {
            Ok(s) => {
                proof {
                    vstd::utf8::encode_utf8_decode_utf8(s@);
                }
                Ok(s)
            },
            Err(_) => Err(ToStrError { _priv: () }),
        }
    }

    /// Returns the length of `self`, in bytes.
    pub fn len(&self) -> (r: usize)
        ensures
            r == self@.len(),
    {
        header_value_as_bytes(&self.inner).len()
    }

    /// Returns true if the `MetadataValue` has a length of zero bytes.
    pub fn is_empty(&self) -> (r: bool)
        ensures
            r == (self@.len() == 0),
    {
        header_value_as_bytes(&self.inner).len() == 0
    }

    /// Converts a `MetadataValue` to a byte slice.
    pub fn as_bytes(&self) -> (r: &[u8])
        ensures
            r@ == self@,
    {
        header_value_as_bytes(&self.inner)
    }

    /// Marks that the metadata value represents sensitive information.
    pub fn set_sensitive(&mut self, val: bool)
        ensures
            final(self)@ == old(self)@,
            final(self).spec_is_sensitive() == val,
    {
        header_value_set_sensitive(&mut self.inner, val);
    }

    /// Returns `true` if the value represents sensitive data.
    pub fn is_sensitive(&self) -> (r: bool)
        ensures
            r == self.spec_is_sensitive(),
    {
        header_value_is_sensitive(&self.inner)
    }

    /// A value with the same bytes and sensitivity.
    pub fn duplicate(&self) -> (r: MetadataValue)
        ensures
            r@ == self@,
            r.spec_is_sensitive() == self.spec_is_sensitive(),
    {
        MetadataValue { inner: header_value_clone(&self.inner) }
    }

    /// The debug form of the value: `Sensitive` for a sensitive value,
    /// otherwise the bytes between double quotes, with double quotes escaped
    /// and bytes that are not visible ASCII written as `\x` and hexadecimal.
    pub fn debug_string(&self) -> (r: String)
        ensures
            r@ == value_debug_text(self@, self.spec_is_sensitive()),
    {
        header_value_debug(&self.inner)
    }
}

/// Whether two byte slices hold the same bytes.
pub(crate) fn bytes_eq(a: &[u8], b: &[u8]) -> (r: bool)
    ensures
        r == (a@ == b@),
{
    if a.len() != b.len() {
        return false;
    }
    let mut i: usize = 0;
    while i < a.len()
        invariant
            i <= a@.len(),
            a@.len() == b@.len(),
            forall|j: int| 0 <= j < i ==> a@[j] == b@[j],
        decreases a@.len() - i,
    {
        if a[i] != b[i] {
            return false;
        }
        i = i + 1;
    }
    assert(a@ =~= b@);
    true
}

impl PartialEq for MetadataValue {
    /// Two values are equal when they hold the same bytes; sensitivity does
    /// not count.
    fn eq(&self, other: &MetadataValue) -> (r: bool) {
        bytes_eq(header_value_as_bytes(&self.inner), header_value_as_bytes(&other.inner))
    }
}

impl vstd::std_specs::cmp::PartialEqSpecImpl for MetadataValue {
    open spec fn obeys_eq_spec() -> bool {
        true
    }

    open spec fn eq_spec(&self, other: &MetadataValue) -> bool {
        self@ == other@
    }
}

impl InvalidMetadataValue {
    /// A new error value.
    pub fn new() -> InvalidMetadataValue {
        InvalidMetadataValue { _priv: () }
    }
}

impl InvalidMetadataValueBytes {
    /// A new error value.
    pub fn new() -> InvalidMetadataValueBytes {
        InvalidMetadataValueBytes(InvalidMetadataValue { _priv: () })
    }
}

} // verus!

verus! {

/// A string of visible ASCII characters is accepted as a metadata value,
/// and reading that value as a string gives the string back.
pub proof fn lemma_visible_str_roundtrip(s: &str)
    requires
        is_visible_ascii_str(s@),
    ensures
        is_valid_value(s.spec_bytes()),
        is_visible_value(s.spec_bytes()),
        chars_of(s.spec_bytes()) == s@,
{
    assert forall|i: int| 0 <= i < s@.len() implies '\0' <= #[trigger] s@[i] <= '\u{7f}' by {
        assert((s@[i] as u32) < 256 && is_visible_ascii(s@[i] as u8));
        lemma_char_below_128(s@[i]);
    }
    assert(vstd::string::is_ascii(s));
    let b = s.spec_bytes();
    assert forall|i: int| 0 <= i < b.len() implies is_visible_ascii(#[trigger] b[i]) && b[i] as char == s@[i] by {
        assert((s@[i] as u32) < 256 && is_visible_ascii(s@[i] as u8));
        lemma_char_below_128(s@[i]);
    }
    assert(chars_of(b) =~= s@);
}

/// A character whose byte is visible ASCII is below 128 and survives a
/// round trip through its byte.
proof fn lemma_char_below_128(c: char)
    requires
        (c as u32) < 256,
        is_visible_ascii(c as u8),
    ensures
        '\0' <= c <= '\u{7f}',
        (c as u8) as char == c,
{
}

/// Whether every byte is visible ASCII (32-126).
fn all_visible(b: &[u8]) -> (r: bool)
    ensures
        r == is_visible_value(b@),
{
    let mut i: usize = 0;
    while i < b.len()
        invariant
            i <= b@.len(),
            forall|j: int| 0 <= j < i ==> is_visible_ascii(#[trigger] b@[j]),
        decreases b@.len() - i,
    {
        if !(b[i] >= 32 && b[i] < 127) {
            return false;
        }
        i = i + 1;
    }
    true
}

/// Whether every byte may stand in a metadata value (32-255 but 127).
fn all_valid(b: &[u8]) -> (r: bool)
    ensures
        r == is_valid_value(b@),
{
    let mut i: usize = 0;
    while i < b.len()
        invariant
            i <= b@.len(),
            forall|j: int| 0 <= j < i ==> is_valid_value_byte(#[trigger] b@[j]),
        decreases b@.len() - i,
    {
        if !(b[i] >= 32 && b[i] != 127) {
            return false;
        }
        i = i + 1;
    }
    true
}

} // verus!
