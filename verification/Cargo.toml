[package]
name = "framed"
version = "0.1.0"
edition = "2021"
publish = false

[dependencies]
futures = "=0.1.31"
log = "0.4"
tokio-core = "=0.1.18"
tokio-io = "=0.1.13"

[dev-dependencies]
bytes = "=0.4.12"
