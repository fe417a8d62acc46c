# tower_grpc

A gRPC library over HTTP/2, written in Verus: the logic that decides what
goes on the wire is verified against its contracts, and the parts that run
futures, services and code generation stand around it as ordinary Rust.

## Layout

- `src/` — the verified library.
  - `status.rs` — gRPC status codes: reading them from and writing them to
    the `grpc-status` field, and mapping HTTP statuses and HTTP/2 errors.
  - `codec.rs` — message framing (a flag byte and a big-endian length in
    front of each message), the buffers, the decoding state machine and the
    encoder of outbound messages.
  - `metadata_key.rs`, `metadata_value.rs`, `metadata_encoding.rs`,
    `metadata_map.rs` — custom metadata: names, values, the ASCII and binary
    encodings, and the map with its entry API, modelled as a sequence of
    entries.
  - `request.rs`, `response.rs`, `client.rs`, `server.rs` — requests and
    responses, the HTTP/2 requests of the four kinds of client call (URI,
    headers and body), and the answer to calls of unimplemented methods.
  - `names.rs`, `codegen_text.rs`, `codegen_plan.rs` — the names, paths and
    type texts that the code generator writes, and the structure of the
    generated client and server: every module, import, item, function and
    line, as a list of `codegen` builder steps.
  - `examples.rs` — the logic of the example clients and of the metadata
    example's server.
  - `interop.rs` — the gRPC interop tests: their messages, the test
    server's answers, the client's checks, the ping-pong exchange as a
    state machine, and the test cases.
  - `route_guide.rs` — the route guide example service: features in a
    rectangle, route summaries and the route chat's notes.
  - `http_specs.rs`, `header_map_specs.rs`, `uri_specs.rs` — the `http`,
    `h2`, `bytes` and `heck` items the library calls, with their trusted
    contracts.
- `tests/` — tests of the library.
- `app/` — the protobuf codec over `prost`; the code generator's driver,
  which hands `prost-build`'s services to the library and runs `codegen`'s
  builders through the steps it returns; the `tower` services, among them
  the client that sends the requests the library builds; and the route
  guide's distances in floating point.
