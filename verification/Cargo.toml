[package]
name = "webrtc_bridge"
version = "0.1.0"
edition = "2021"
publish = false

[dependencies]
webrtc = "=0.14.0"
bytes = "*"
tokio = { version = "*", features = ["sync", "time", "rt", "macros"] }
async-trait = "*"
arc-swap = "*"
serde_json = "*"
thiserror = "*"
tracing-subscriber = { version = "*", features = ["fmt", "env-filter"] }
