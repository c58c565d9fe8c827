[package]
name = "binate"
version = "0.1.0"
edition = "2021"
publish = false

[dependencies]
bytes = "1"
dashmap = "5"
tokio = { version = "1", features = ["rt", "sync", "time"] }
tokio-stream = "0.1"
tracing = "0.1"

[dev-dependencies]
loom = "0.7"
