[package]
name = "async_server"
version = "0.1.0"
edition = "2021"
publish = false

[dependencies]
failure = "0.1"
failure_derive = "0.1"
futures = "0.1"
tokio-core = "0.1"
tokio-io = "0.1"
tokio-proto = "0.1"
tokio-service = "0.1"
