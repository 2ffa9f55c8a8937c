[package]
name = "sexp_proto_tokio"
version = "0.1.0"
edition = "2021"
publish = false

[dependencies]
serde = "1"
futures = "0.1"
tokio-core = "0.1"
tokio-proto = "0.1"
tokio-service = "0.1"
bytes = "0.4"
log = "0.4"
env_logger = "0.4"
