[package]
name = "rerun_bridge"
version = "0.1.0"
edition = "2021"
publish = false

[dependencies]
re_sdk = "=0.24.1"
re_types = { version = "=0.24.1", default-features = false }
tracing = { version = "0.1", default-features = false, features = ["std"] }
tracing-subscriber = { version = "0.3", default-features = false, features = ["registry", "std"] }
