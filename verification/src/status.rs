//! gRPC status codes: their wire form in the `grpc-status` field, and the
//! status that a response without one is given.
use vstd::prelude::*;
use vstd::string::StringSliceAdditionalSpecFns;

use crate::header_map_specs::{header_entries, header_map_get, header_map_insert, header_map_new, values_at, values_of};
use crate::http_specs::header_name_from_static;
use crate::metadata_map::lemma_insert_then_get;
use crate::http_specs::{header_value_as_bytes, status_code_number, status_code_as_u16, h2_error_reason_code, h2_error_reason, header_value_from_static, header_value_bytes, header_value_sensitive};
use http::header::HeaderValue;
use http::{HeaderMap, StatusCode};

verus! {

/// A gRPC status code.
#[derive(Clone, Copy, Debug, PartialEq, Eq, Structural)]
pub enum Code {
    OK,
    Cancelled,
    Unknown,
    InvalidArgument,
    DeadlineExceeded,
    NotFound,
    AlreadyExists,
    PermissionDenied,
    ResourceExhausted,
    FailedPrecondition,
    Aborted,
    OutOfRange,
    Unimplemented,
    Internal,
    Unavailable,
    DataLoss,
    Unauthenticated,
}

/// The outcome of a gRPC call, as carried by the `grpc-status` field.
#[derive(Clone, Copy, Debug, PartialEq, Eq, Structural)]
pub struct Status {
    code: Code,
}

/// The number of a code on the wire.
pub open spec fn code_number(c: Code) -> nat {
    match c {
        Code::OK => 0,
        Code::Cancelled => 1,
        Code::Unknown => 2,
        Code::InvalidArgument => 3,
        Code::DeadlineExceeded => 4,
        Code::NotFound => 5,
        Code::AlreadyExists => 6,
        Code::PermissionDenied => 7,
        Code::ResourceExhausted => 8,
        Code::FailedPrecondition => 9,
        Code::Aborted => 10,
        Code::OutOfRange => 11,
        Code::Unimplemented => 12,
        Code::Internal => 13,
        Code::Unavailable => 14,
        Code::DataLoss => 15,
        Code::Unauthenticated => 16,
    }
}

/// The code with a given number, if there is one.
pub open spec fn code_with_number(n: int) -> Option<Code> {
    if n == 0 { Some(Code::OK) }
    else if n == 1 { Some(Code::Cancelled) }
    else if n == 2 { Some(Code::Unknown) }
    else if n == 3 { Some(Code::InvalidArgument) }
    else if n == 4 { Some(Code::DeadlineExceeded) }
    else if n == 5 { Some(Code::NotFound) }
    else if n == 6 { Some(Code::AlreadyExists) }
    else if n == 7 { Some(Code::PermissionDenied) }
    else if n == 8 { Some(Code::ResourceExhausted) }
    else if n == 9 { Some(Code::FailedPrecondition) }
    else if n == 10 { Some(Code::Aborted) }
    else if n == 11 { Some(Code::OutOfRange) }
    else if n == 12 { Some(Code::Unimplemented) }
    else if n == 13 { Some(Code::Internal) }
    else if n == 14 { Some(Code::Unavailable) }
    else if n == 15 { Some(Code::DataLoss) }
    else if n == 16 { Some(Code::Unauthenticated) }
    else { None }
}

/// An ASCII decimal digit.
pub open spec fn is_digit(b: u8) -> bool {
    48 <= b <= 57
}

/// The canonical decimal form of a number below one hundred: no leading zero.
pub open spec fn decimal_bytes(n: nat) -> Seq<u8>
    recommends
        n < 100,
{
    if n < 10 {
        seq![(48 + n) as u8]
    } else {
        seq![(48 + n / 10) as u8, (48 + n % 10) as u8]
    }
}

/// The number that a byte string spells in decimal, if it is one or two digits.
pub open spec fn decimal_value(b: Seq<u8>) -> Option<int> {
    if b.len() == 1 && is_digit(b[0]) {
        Some(b[0] - 48)
    } else if b.len() == 2 && is_digit(b[0]) && is_digit(b[1]) {
        Some((b[0] - 48) * 10 + (b[1] - 48))
    } else {
        None
    }
}

/// The wire form of a code: its number in canonical decimal.
pub open spec fn code_bytes(c: Code) -> Seq<u8> {
    decimal_bytes(code_number(c))
}

/// The code that a `grpc-status` field holding `b` is read as: the code
/// whose canonical decimal form `b` is, and `Unknown` for anything else.
pub open spec fn code_from_bytes(b: Seq<u8>) -> Code {
    if b.len() == 2 && b[0] == 48 {
        Code::Unknown
    } else {
        match decimal_value(b) {
            Some(n) => match code_with_number(n) {
                Some(c) => c,
                None => Code::Unknown,
            },
            None => Code::Unknown,
        }
    }
}

/// The status that an HTTP response status is mapped to, for responses
/// that carry no `grpc-status` field.
pub open spec fn code_for_http_status(http_status: u16) -> Code {
    if http_status == 400 {
        Code::Internal
    } else if http_status == 401 {
        Code::Unauthenticated
    } else if http_status == 403 {
        Code::PermissionDenied
    } else if http_status == 404 {
        Code::Unimplemented
    } else if http_status == 429 || http_status == 502 || http_status == 503 || http_status == 504 {
        Code::Unavailable
    } else {
        Code::Unknown
    }
}

/// The status that an HTTP/2 error with the given reason code is mapped to.
pub open spec fn code_for_h2_reason(reason: Option<u32>) -> Code {
    match reason {
        Some(r) => if r == 0 || r == 1 || r == 2 || r == 3 || r == 4 || r == 9 || r == 10 {
            Code::Internal
        } else if r == 7 {
            Code::Unavailable
        } else if r == 8 {
            Code::Cancelled
        } else if r == 11 {
            Code::ResourceExhausted
        } else if r == 12 {
            Code::PermissionDenied
        } else {
            Code::Unknown
        },
        None => Code::Unknown,
    }
}

/// The code with a given number, `Unknown` where no code has it.
pub open spec fn code_of_number(n: int) -> Code {
    match code_with_number(n) {
        Some(c) => c,
        None => Code::Unknown,
    }
}

impl Code {
    /// The code with the number `n`, `Unknown` where no code has it.
    pub fn from_i32(n: i32) -> (c: Code)
        ensures
            c == code_of_number(n as int),
    {
        if n == 0 { Code::OK }
        else if n == 1 { Code::Cancelled }
        else if n == 2 { Code::Unknown }
        else if n == 3 { Code::InvalidArgument }
        else if n == 4 { Code::DeadlineExceeded }
        else if n == 5 { Code::NotFound }
        else if n == 6 { Code::AlreadyExists }
        else if n == 7 { Code::PermissionDenied }
        else if n == 8 { Code::ResourceExhausted }
        else if n == 9 { Code::FailedPrecondition }
        else if n == 10 { Code::Aborted }
        else if n == 11 { Code::OutOfRange }
        else if n == 12 { Code::Unimplemented }
        else if n == 13 { Code::Internal }
        else if n == 14 { Code::Unavailable }
        else if n == 15 { Code::DataLoss }
        else if n == 16 { Code::Unauthenticated }
        else { Code::Unknown }
    }
}

impl Status {
    /// The code of this status.
    pub closed spec fn spec_code(&self) -> Code {
        self.code
    }

    /// A status with the given code.
    pub fn new(code: Code) -> (s: Status)
        ensures
            s.spec_code() == code,
    {
        Status { code }
    }

    /// The code of this status.
    pub fn code(&self) -> (c: Code)
        ensures
            c == self.spec_code(),
    {
        self.code
    }

    /// Reads a status from the bytes of a `grpc-status` field. Anything but
    /// the decimal number of a known code is read as `Unknown`.
    pub fn from_bytes(bytes: &[u8]) -> (s: Status)
        ensures
            s.spec_code() == code_from_bytes(bytes@),
    {
        let code = if bytes.len() == 1 {
            match bytes[0] {
                48 => Code::OK,
                49 => Code::Cancelled,
                50 => Code::Unknown,
                51 => Code::InvalidArgument,
                52 => Code::DeadlineExceeded,
                53 => Code::NotFound,
                54 => Code::AlreadyExists,
                55 => Code::PermissionDenied,
                56 => Code::ResourceExhausted,
                57 => Code::FailedPrecondition,
                _ => Code::Unknown,
            }
        } else if bytes.len() == 2 && bytes[0] == 49 {
            match bytes[1] {
                48 => Code::Aborted,
                49 => Code::OutOfRange,
                50 => Code::Unimplemented,
                51 => Code::Internal,
                52 => Code::Unavailable,
                53 => Code::DataLoss,
                54 => Code::Unauthenticated,
                _ => Code::Unknown,
            }
        } else {
            Code::Unknown
        };
        Status { code }
    }

    /// The wire form of this status's code, as ASCII decimal bytes.
    pub fn to_header_bytes(&self) -> (b: Vec<u8>)
        ensures
            b@ == code_bytes(self.spec_code()),
    {
        let n: u8 = match self.code {
            Code::OK => 0,
            Code::Cancelled => 1,
            Code::Unknown => 2,
            Code::InvalidArgument => 3,
            Code::DeadlineExceeded => 4,
            Code::NotFound => 5,
            Code::AlreadyExists => 6,
            Code::PermissionDenied => 7,
            Code::ResourceExhausted => 8,
            Code::FailedPrecondition => 9,
            Code::Aborted => 10,
            Code::OutOfRange => 11,
            Code::Unimplemented => 12,
            Code::Internal => 13,
            Code::Unavailable => 14,
            Code::DataLoss => 15,
            Code::Unauthenticated => 16,
        };
        let mut b: Vec<u8> = Vec::new();
        if n < 10 {
            b.push(48 + n);
        } else {
            b.push(48 + n / 10);
            b.push(48 + n % 10);
        }
        assert(b@ =~= code_bytes(self.spec_code()));
        b
    }
    /// The status that a response with the given HTTP status and no
    /// `grpc-status` field is given.
    pub fn for_http_status(http_status: u16) -> (s: Status)
        ensures
            s.spec_code() == code_for_http_status(http_status),
    {
        let code = if http_status == 400 {
            Code::Internal
        } else if http_status == 401 {
            Code::Unauthenticated
        } else if http_status == 403 {
            Code::PermissionDenied
        } else if http_status == 404 {
            Code::Unimplemented
        } else if http_status == 429 || http_status == 502 || http_status == 503 || http_status == 504 {
            Code::Unavailable
        } else {
            Code::Unknown
        };
        Status { code }
    }

    /// The status that an HTTP/2 error with the given reason code stands for.
    pub fn for_h2_reason(reason: Option<u32>) -> (s: Status)
        ensures
            s.spec_code() == code_for_h2_reason(reason),
    {
        let code = match reason {
            Some(r) => if r == 0 || r == 1 || r == 2 || r == 3 || r == 4 || r == 9 || r == 10 {
                Code::Internal
            } else if r == 7 {
                Code::Unavailable
            } else if r == 8 {
                Code::Cancelled
            } else if r == 11 {
                Code::ResourceExhausted
            } else if r == 12 {
                Code::PermissionDenied
            } else {
                Code::Unknown
            },
            None => Code::Unknown,
        };
        Status { code }
    }

    /// The status that an HTTP/2 error stands for, by its reason code.
    pub fn from_h2_error(err: &h2::Error) -> (s: Status)
        ensures
            s.spec_code() == code_for_h2_reason(h2_error_reason_code(*err)),
    {
        Status::for_h2_reason(h2_error_reason(err))
    }

    /// The trailers that report this status: a `grpc-status` field with
    /// its code in decimal, and nothing else.
    pub fn to_header_map(&self) -> (r: HeaderMap)
        ensures
            header_entries(r).len() == 1,
            values_of(header_entries(r), grpc_status_name()).len() == 1,
            header_value_bytes(values_of(header_entries(r), grpc_status_name())[0]) == code_bytes(self.spec_code()),
    {
        let mut headers = header_map_new();
        let value = self.to_header_value();
        proof {
            reveal_strlit("grpc-status");
            assert("grpc-status"@ =~= grpc_status_name());
        }
        let name = header_name_from_static("grpc-status");
        let _ = header_map_insert(&mut headers, name, value);
        proof {
            lemma_insert_then_get(Seq::empty(), grpc_status_name(), value, grpc_status_name());
        }
        headers
    }

    /// The `grpc-status` header value of this status: its code in decimal.
    pub fn to_header_value(&self) -> (v: HeaderValue)
        ensures
            header_value_bytes(v) == code_bytes(self.spec_code()),
            !header_value_sensitive(v),
    {
        let v = match self.code {
            Code::OK => {
                proof { reveal_strlit("0"); }
                header_value_from_static("0")
            },
            Code::Cancelled => {
                proof { reveal_strlit("1"); }
                header_value_from_static("1")
            },
            Code::Unknown => {
                proof { reveal_strlit("2"); }
                header_value_from_static("2")
            },
            Code::InvalidArgument => {
                proof { reveal_strlit("3"); }
                header_value_from_static("3")
            },
            Code::DeadlineExceeded => {
                proof { reveal_strlit("4"); }
                header_value_from_static("4")
            },
            Code::NotFound => {
                proof { reveal_strlit("5"); }
                header_value_from_static("5")
            },
            Code::AlreadyExists => {
                proof { reveal_strlit("6"); }
                header_value_from_static("6")
            },
            Code::PermissionDenied => {
                proof { reveal_strlit("7"); }
                header_value_from_static("7")
            },
            Code::ResourceExhausted => {
                proof { reveal_strlit("8"); }
                header_value_from_static("8")
            },
            Code::FailedPrecondition => {
                proof { reveal_strlit("9"); }
                header_value_from_static("9")
            },
            Code::Aborted => {
                proof { reveal_strlit("10"); }
                header_value_from_static("10")
            },
            Code::OutOfRange => {
                proof { reveal_strlit("11"); }
                header_value_from_static("11")
            },
            Code::Unimplemented => {
                proof { reveal_strlit("12"); }
                header_value_from_static("12")
            },
            Code::Internal => {
                proof { reveal_strlit("13"); }
                header_value_from_static("13")
            },
            Code::Unavailable => {
                proof { reveal_strlit("14"); }
                header_value_from_static("14")
            },
            Code::DataLoss => {
                proof { reveal_strlit("15"); }
                header_value_from_static("15")
            },
            Code::Unauthenticated => {
                proof { reveal_strlit("16"); }
                header_value_from_static("16")
            },
        };
        assert(header_value_bytes(v) =~= code_bytes(self.spec_code()));
        v
    }
}

/// The code that a response is given from its `grpc-status` field when
/// there is one, and else from its HTTP status when that is known.
pub open spec fn inferred_code(grpc_status: Option<Seq<u8>>, http_status: Option<u16>) -> Option<Code> {
    match grpc_status {
        Some(b) => Some(code_from_bytes(b)),
        None => match http_status {
            Some(h) => Some(code_for_http_status(h)),
            None => None,
        },
    }
}

/// The bytes of the first of some header values, if there is one.
pub open spec fn first_value_bytes(values: Seq<HeaderValue>) -> Option<Seq<u8>> {
    if values.len() > 0 {
        Some(header_value_bytes(values[0]))
    } else {
        None
    }
}

/// The bytes of the `grpc-status` field of some trailers, if they have one.
pub open spec fn grpc_status_field(trailers: HeaderMap) -> Option<Seq<u8>> {
    first_value_bytes(values_at(header_entries(trailers), "grpc-status".spec_bytes()))
}

/// The `grpc-status` header name.
pub open spec fn grpc_status_name() -> Seq<char> {
    seq!['g', 'r', 'p', 'c', '-', 's', 't', 'a', 't', 'u', 's']
}

/// The code of an optional status.
pub open spec fn opt_code(s: Option<Status>) -> Option<Code> {
    match s {
        Some(s) => Some(s.spec_code()),
        None => None,
    }
}

/// The status of a response: read from `grpc_status` (the bytes of its
/// `grpc-status` field) where that is present, otherwise mapped from its
/// HTTP status where that is known, otherwise none.
pub fn infer_status_from_parts(grpc_status: Option<&[u8]>, http_status: Option<u16>) -> (r: Option<Status>)
    ensures
        opt_code(r) == inferred_code(
            match grpc_status { Some(b) => Some(b@), None => None },
            http_status,
        ),
{
    match grpc_status {
        Some(b) => Some(Status::from_bytes(b)),
        None => match http_status {
            Some(h) => Some(Status::for_http_status(h)),
            None => None,
        },
    }
}

/// Takes the `Status` value from `trailers` if it is available. If it is
/// not, and `status_code` is provided, infers the `Status` from the
/// `status_code`. Otherwise, returns `None`.
pub fn infer_grpc_status(trailers: &HeaderMap, status_code: Option<StatusCode>) -> (r: Option<Status>)
    ensures
        opt_code(r) == inferred_code(
            grpc_status_field(*trailers),
            match status_code { Some(c) => Some(status_code_number(c)), None => None },
        ),
{
    let key = "grpc-status";
    proof {
        reveal_strlit("grpc-status");
        assert(vstd::string::is_ascii(key));
    }
    let grpc_status = header_map_get(trailers, key);
    let http_status = match &status_code {
        Some(c) => Some(status_code_as_u16(c)),
        None => None,
    };
    match grpc_status {
        Some(v) => infer_status_from_parts(Some(header_value_as_bytes(v)), http_status),
        None => infer_status_from_parts(None, http_status),
    }
}

/// `code_bytes` is read back by `code_from_bytes`: a status written to a
/// `grpc-status` field and read from it again keeps its code.
pub proof fn lemma_code_bytes_roundtrip(c: Code)
    ensures
        code_from_bytes(code_bytes(c)) == c,
{
}

/// Two codes with the same wire form are the same code.
pub proof fn lemma_code_bytes_injective(c1: Code, c2: Code)
    requires
        code_bytes(c1) == code_bytes(c2),
    ensures
        c1 == c2,
{
    lemma_code_bytes_roundtrip(c1);
    lemma_code_bytes_roundtrip(c2);
}

/// The gRPC status that an HTTP status stands for, where a response has no
/// `grpc-status`, as the gRPC specification maps them: each code is given
/// for exactly these HTTP statuses, 400 for `Internal`, 401 for
/// `Unauthenticated`, 403 for `PermissionDenied`, 404 for `Unimplemented`,
/// 429, 502, 503 and 504 for `Unavailable`, and every other status for
/// `Unknown`.
pub proof fn lemma_http_status_mapping(http_status: u16)
    ensures
        (code_for_http_status(http_status) == Code::Internal) <==> http_status == 400,
        (code_for_http_status(http_status) == Code::Unauthenticated) <==> http_status == 401,
        (code_for_http_status(http_status) == Code::PermissionDenied) <==> http_status == 403,
        (code_for_http_status(http_status) == Code::Unimplemented) <==> http_status == 404,
        (code_for_http_status(http_status) == Code::Unavailable) <==> (http_status == 429 || http_status == 502
            || http_status == 503 || http_status == 504),
        (code_for_http_status(http_status) == Code::Unknown) <==> !(http_status == 400 || http_status == 401
            || http_status == 403 || http_status == 404 || http_status == 429 || http_status == 502
            || http_status == 503 || http_status == 504),
{
}

/// The gRPC status that an HTTP/2 error stands for, as the gRPC
/// specification maps reason codes: each code is given for exactly these
/// reasons, `NO_ERROR`, `PROTOCOL_ERROR`, `INTERNAL_ERROR`,
/// `FLOW_CONTROL_ERROR`, `SETTINGS_TIMEOUT`, `COMPRESSION_ERROR` and
/// `CONNECT_ERROR` (0, 1, 2, 3, 4, 9, 10) for `Internal`, `REFUSED_STREAM`
/// (7) for `Unavailable`, `CANCEL` (8) for `Cancelled`,
/// `ENHANCE_YOUR_CALM` (11) for `ResourceExhausted`,
/// `INADEQUATE_SECURITY` (12) for `PermissionDenied`, and any other reason,
/// or none, for `Unknown`.
pub proof fn lemma_h2_reason_mapping(reason: Option<u32>)
    ensures
        (code_for_h2_reason(reason) == Code::Internal) <==> (reason matches Some(r)
            && (r == 0 || r == 1 || r == 2 || r == 3 || r == 4 || r == 9 || r == 10)),
        (code_for_h2_reason(reason) == Code::Unavailable) <==> reason == Some(7u32),
        (code_for_h2_reason(reason) == Code::Cancelled) <==> reason == Some(8u32),
        (code_for_h2_reason(reason) == Code::ResourceExhausted) <==> reason == Some(11u32),
        (code_for_h2_reason(reason) == Code::PermissionDenied) <==> reason == Some(12u32),
        (code_for_h2_reason(reason) == Code::Unknown) <==> !(reason matches Some(r)
            && (r == 0 || r == 1 || r == 2 || r == 3 || r == 4 || r == 7 || r == 8 || r == 9 || r == 10
                || r == 11 || r == 12)),
{
}

} // verus!
