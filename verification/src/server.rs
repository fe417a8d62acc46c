//! The server side of gRPC that does not depend on how services are run:
//! the answer to a call of a method that a service does not implement.
use vstd::prelude::*;

use crate::header_map_specs::{header_entries, values_of};
use crate::http_specs::header_value_bytes;
use crate::status::{code_bytes, grpc_status_name, Code, Status};
use http::HeaderMap;

verus! {

/// The headers of the response to a call of a method that the service does
/// not implement: a `grpc-status` field with the code `Unimplemented`, and
/// nothing else. The message is not sent.
pub fn unimplemented(message: String) -> (r: HeaderMap)
    ensures
        header_entries(r).len() == 1,
        values_of(header_entries(r), grpc_status_name()).len() == 1,
        header_value_bytes(values_of(header_entries(r), grpc_status_name())[0]) == code_bytes(Code::Unimplemented),
{
    Status::new(Code::Unimplemented).to_header_map()
}

} // verus!
