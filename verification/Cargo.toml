[package]
name = "tokio_ctrlc_error"
version = "0.1.0"
edition = "2021"
publish = false

[dependencies]
futures = "0.1"
tokio-signal = "0.2"
failure = "0.1"
