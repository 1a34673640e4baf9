[package]
name = "rkllm"
version = "0.1.0"
edition = "2021"
publish = false

[dependencies]
futures-core = "0.3"
tokio = { version = "1", features = ["rt", "sync"] }
