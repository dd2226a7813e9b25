[package]
name = "otel_sdk"
version = "0.1.0"
edition = "2021"
publish = false

[dependencies]
tokio = { version = "1", features = ["net", "rt"] }
async-std = "1"
async-trait = "0.1"
thrift = "0.17"
