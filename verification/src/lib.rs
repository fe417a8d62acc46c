//! gRPC status codes, metadata and message framing, with their contracts.
use vstd::prelude::*;

pub mod http_specs;
pub mod status;
pub mod codec;
pub mod metadata_key;
pub mod metadata_value;
pub mod metadata_encoding;
pub mod header_map_specs;
pub mod metadata_map;
pub mod request;
pub mod response;
pub mod names;
pub mod codegen_text;
pub mod codegen_plan;
pub mod uri_specs;
pub mod client;
pub mod server;
pub mod examples;
pub mod interop;
pub mod route_guide;

verus! {

} // verus!
