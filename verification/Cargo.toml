[package]
name = "process_stream"
version = "0.1.0"
edition = "2021"
publish = false

[dependencies]
anyhow = "1"
async-stream = "0.3"
futures = "0.3"
serde = { version = "1", features = ["derive"] }
tap = "1"
tokio = { version = "1", features = ["io-util", "macros", "process", "rt", "sync"] }
tokio-stream = { version = "0.1", features = ["io-util"] }
