[package]
name = "pipe_relay"
version = "0.1.0"
edition = "2021"
publish = false

[dependencies]
tokio = { version = "*", features = ["sync", "rt-multi-thread", "macros", "time", "net"] }
axum = "*"
bytes = "*"
futures-util = "*"
async-stream = "*"
serde_json = "*"
tracing = "*"
