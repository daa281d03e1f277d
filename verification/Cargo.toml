[package]
name = "topos-sequencer-tce-proxy"
version = "0.1.0"
edition = "2021"
publish = false

[dependencies]
async-stream = "0.3"
backoff = { version = "0.4", features = ["tokio"] }
futures = "0.3"
hex = "0.4"
thiserror = "1"
tokio = { version = "1", features = ["macros", "rt", "sync", "time"] }
tokio-stream = "0.1"
tonic = { version = "0.9", features = ["transport"] }
tracing = "0.1"
