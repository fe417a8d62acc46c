[package]
name = "tower_grpc"
version = "0.1.0"
edition = "2021"
publish = false

[dependencies]
http = "=0.1.21"
bytes = "=0.4.12"
h2 = "=0.1.26"
heck = "=0.3.3"
futures = "=0.1.31"
prost = "=0.5.0"
tower-service = "=0.2.0"
codegen = "0.1"
prost-build = "0.5"
