[package]
name = "ibc-grpc-server"
version = "0.1.0"
edition = "2021"
publish = false

[dependencies]
ibc = "=0.19.0"
ibc-proto = { version = "=0.20.1", features = ["server"] }
tonic = "=0.8.3"
log = "=0.4.34"
derive_more = "=0.99.20"
