//! Names of custom metadata fields.
use vstd::prelude::*;
use vstd::string::StringSliceAdditionalSpecFns;
use vstd::utf8::encode_utf8;

use crate::http_specs::{
    header_char, header_name_as_str, header_name_clone, header_name_from_bytes, header_name_from_static,
    header_name_str, is_http_name, is_lower_name, is_name_bytes, lemma_http_name_ascii,
    normalized_name,
};
use http::header::HeaderName;

verus! {

/// Represents a custom metadata field name.
///
/// `MetadataKey` is used as the `MetadataMap` key.
#[derive(Eq, PartialEq, Hash)]
pub struct MetadataKey {
    pub(crate) inner: HeaderName,
}

/// A possible error when converting a `MetadataKey` from another type.
#[derive(Debug)]
pub struct InvalidMetadataKey {
    _priv: (),
}

impl View for MetadataKey {
    type V = Seq<char>;

    /// The name, in lower case.
    closed spec fn view(&self) -> Seq<char> {
        header_name_str(self.inner)
    }
}

impl MetadataKey {
    /// A key's name is one that an `http` header name may hold.
    #[verifier::type_invariant]
    closed spec fn http_name(self) -> bool {
        is_http_name(header_name_str(self.inner))
    }

    /// Converts a slice of bytes to a `MetadataKey`: any non-empty run of
    /// header name characters, normalized to lower case.
    pub fn from_bytes(src: &[u8]) -> (r: Result<MetadataKey, InvalidMetadataKey>)
        requires
            src@.len() < 65536,
        ensures
            r is Ok <==> is_name_bytes(src@),
            r matches Ok(k) ==> k@ == normalized_name(src@),
    {
        match header_name_from_bytes(src) {
            Ok(name) => Ok(MetadataKey::from_header_name(name)),
            Err(_) => Err(InvalidMetadataKey::new()),
        }
    }

    /// Converts a string to a `MetadataKey`: any non-empty run of header
    /// name characters, normalized to lower case.
    pub fn from_str(src: &str) -> (r: Result<MetadataKey, InvalidMetadataKey>)
        requires
            src.spec_bytes().len() < 65536,
        ensures
            r is Ok <==> is_name_bytes(src.spec_bytes()),
            r matches Ok(k) ==> k@ == normalized_name(src.spec_bytes()),
    {
        MetadataKey::from_bytes(src.as_bytes())
    }

    /// Converts a static string to a `MetadataKey`. The string must already
    /// be in normalized form: lower-case header name characters only.
    pub fn from_static(src: &'static str) -> (r: MetadataKey)
        requires
            is_lower_name(src@),
            src@.len() < 65536,
        ensures
            r@ == src@,
    {
        MetadataKey::from_header_name(header_name_from_static(src))
    }

    /// Returns a `str` representation of the metadata key, always lower case.
    pub fn as_str(&self) -> (r: &str)
        ensures
            r@ == self@,
            is_http_name(r@),
    {
        proof {
            use_type_invariant(self);
        }
        header_name_as_str(&self.inner)
    }

    /// Compares the key with a string, ignoring ASCII case: equal where
    /// the string has the key's length and `http`'s name table makes each of
    /// its bytes the key's byte at that place.
    pub fn eq_str(&self, other: &str) -> (r: bool)
        ensures
            r == (other.spec_bytes().len() == self@.len()
                && forall|i: int| 0 <= i < self@.len() ==> header_char(#[trigger] other.spec_bytes()[i]) == self@[i] as u8),
    {
        let name = self.as_str();
        proof {
            lemma_http_name_ascii(name@);
        }
        let a = name.as_bytes();
        let b = other.as_bytes();
        proof {
            vstd::utf8::is_ascii_chars_encode_utf8(name@);
            assert forall|i: int| 0 <= i < a@.len() implies #[trigger] a@[i] == self@[i] as u8 by {
                assert(encode_utf8(name@)[i] == name@[i] as u8);
            }
        }
        if a.len() != b.len() {
            return false;
        }
        let mut i: usize = 0;
        while i < a.len()
            invariant
                i <= a@.len(),
                a@.len() == b@.len(),
                b@ == other.spec_bytes(),
                a@.len() == self@.len(),
                forall|j: int| 0 <= j < a@.len() ==> #[trigger] a@[j] == self@[j] as u8,
                forall|j: int| 0 <= j < i ==> header_char(#[trigger] b@[j]) == self@[j] as u8,
            decreases a@.len() - i,
        {
            if name_table(b[i]) != a[i] {
                return false;
            }
            i = i + 1;
        }
        true
    }

    /// The header name that the key holds.
    pub fn into_header_name(self) -> (r: HeaderName)
        ensures
            header_name_str(r) == self@,
            is_http_name(self@),
    {
        proof {
            use_type_invariant(&self);
        }
        self.inner
    }

    /// The key that holds a header name.
    pub fn from_header_name(name: HeaderName) -> (r: MetadataKey)
        ensures
            r@ == header_name_str(name),
            is_http_name(r@),
    {
        let _ = header_name_as_str(&name);
        MetadataKey { inner: name }
    }

    /// A key with the same name.
    pub fn duplicate(&self) -> (r: MetadataKey)
        ensures
            r@ == self@,
            is_http_name(self@),
    {
        proof {
            use_type_invariant(self);
        }
        MetadataKey { inner: header_name_clone(&self.inner) }
    }
}

/// What `http`'s name table makes of a byte: the byte in lower case where it
/// may stand in a header name, a zero byte otherwise.
fn name_table(c: u8) -> (r: u8)
    ensures
        r == header_char(c),
{
    let ok = c == 33 || c == 34 || c == 35 || c == 36 || c == 37 || c == 38 || c == 39
        || c == 42 || c == 43 || c == 45 || c == 46
        || (48 <= c && c <= 57)
        || (65 <= c && c <= 90)
        || c == 94 || c == 95 || c == 96
        || (97 <= c && c <= 122)
        || c == 124 || c == 126;
    if !ok {
        0
    } else if 65 <= c && c <= 90 {
        c + 32
    } else {
        c
    }
}

impl InvalidMetadataKey {
    /// A new error value.
    pub fn new() -> InvalidMetadataKey {
        InvalidMetadataKey { _priv: () }
    }
}

} // verus!
