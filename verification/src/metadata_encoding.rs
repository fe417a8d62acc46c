//! The two encodings of metadata values: ASCII text and binary data, told
//! apart by the suffix of the key.
use vstd::prelude::*;
use vstd::string::StringSliceAdditionalSpecFns;

use crate::http_specs::{bytes_contents, bytes_from_slice, header_value_bytes, header_value_from_shared, header_value_sensitive, is_http_value_byte};
use crate::metadata_value::InvalidMetadataValueBytes;
use bytes::Bytes;
use http::header::HeaderValue;

verus! {

/// The suffix that marks a key whose values are binary.
pub open spec fn binary_suffix() -> Seq<u8> {
    seq![45u8, 98u8, 105u8, 110u8]
}

/// The key, given by its bytes, ends with `-bin`.
pub open spec fn has_binary_suffix(key: Seq<u8>) -> bool {
    key.len() >= 4 && key.subrange(key.len() - 4, key.len() as int) == binary_suffix()
}

/// Whether the bytes of a key end with `-bin`.
pub fn ends_with_bin(key: &str) -> (r: bool)
    ensures
        r == has_binary_suffix(key.spec_bytes()),
{
    let b = key.as_bytes();
    let n = b.len();
    if n < 4 {
        return false;
    }
    let r = b[n - 4] == 45u8 && b[n - 3] == 98u8 && b[n - 2] == 105u8 && b[n - 1] == 110u8;
    proof {
        let tail = b@.subrange(n - 4, n as int);
        if r {
            assert(tail =~= binary_suffix());
        } else {
            assert(tail[0] == b@[n - 4]);
            assert(tail[1] == b@[n - 3]);
            assert(tail[2] == b@[n - 2]);
            assert(tail[3] == b@[n - 1]);
            assert(tail != binary_suffix());
        }
    }
    r
}

/// How the values under a kind of key are encoded.
pub trait ValueEncoding {
    /// The keys that belong to this encoding, given by their bytes.
    spec fn spec_is_valid_key(key: Seq<u8>) -> bool;

    /// Whether `key` belongs to this encoding.
    fn is_valid_key(key: &str) -> (r: bool)
        ensures
            r == Self::spec_is_valid_key(key.spec_bytes()),
    ;

    /// Whether an encoded value is empty.
    fn is_empty(value: &[u8]) -> (r: bool)
        ensures
            r == (value@.len() == 0),
    ;

    /// The header value that holds an encoded value, if its bytes are valid
    /// in a header value.
    fn from_shared(value: Bytes) -> (r: Result<HeaderValue, InvalidMetadataValueBytes>)
        ensures
            r is Ok <==> (forall|i: int| 0 <= i < bytes_contents(value).len() ==> is_http_value_byte(#[trigger] bytes_contents(value)[i])),
            r matches Ok(v) ==> header_value_bytes(v) == bytes_contents(value) && !header_value_sensitive(v),
    ;

    /// The bytes that an encoded value stands for.
    fn decode(value: &[u8]) -> (r: Result<Bytes, InvalidMetadataValueBytes>)
        ensures
            r matches Ok(b) && bytes_contents(b) == value@,
    ;
}

/// The encoding of ASCII metadata: keys that do not end with `-bin`.
#[derive(Clone, Copy, Debug, PartialEq, Eq, Hash)]
pub struct Ascii {}

/// The encoding of binary metadata: keys that end with `-bin`.
#[derive(Clone, Copy, Debug, PartialEq, Eq, Hash)]
pub struct Binary {}

impl ValueEncoding for Ascii {
    open spec fn spec_is_valid_key(key: Seq<u8>) -> bool {
        !has_binary_suffix(key)
    }

    fn is_valid_key(key: &str) -> (r: bool) {
        !Binary::is_valid_key(key)
    }

    fn is_empty(value: &[u8]) -> (r: bool) {
        value.len() == 0
    }

    fn from_shared(value: Bytes) -> (r: Result<HeaderValue, InvalidMetadataValueBytes>) {
        match header_value_from_shared(value) {
            Ok(v) => Ok(v),
            Err(_) => Err(InvalidMetadataValueBytes::new()),
        }
    }

    fn decode(value: &[u8]) -> (r: Result<Bytes, InvalidMetadataValueBytes>) {
        Ok(bytes_from_slice(value))
    }
}

impl ValueEncoding for Binary {
    open spec fn spec_is_valid_key(key: Seq<u8>) -> bool {
        has_binary_suffix(key)
    }

    fn is_valid_key(key: &str) -> (r: bool) {
        ends_with_bin(key)
    }

    fn is_empty(value: &[u8]) -> (r: bool) {
        value.len() == 0
    }

    fn from_shared(value: Bytes) -> (r: Result<HeaderValue, InvalidMetadataValueBytes>) {
        match header_value_from_shared(value) {
            Ok(v) => Ok(v),
            Err(_) => Err(InvalidMetadataValueBytes::new()),
        }
    }

    fn decode(value: &[u8]) -> (r: Result<Bytes, InvalidMetadataValueBytes>) {
        Ok(bytes_from_slice(value))
    }
}

/// Every key belongs to exactly one of the two encodings.
pub proof fn lemma_key_has_one_encoding(key: Seq<u8>)
    ensures
        Ascii::spec_is_valid_key(key) != Binary::spec_is_valid_key(key),
{
}

} // verus!
