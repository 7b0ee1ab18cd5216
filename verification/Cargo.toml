[package]
name = "noctiforge_sdk_rust"
version = "0.1.0"
edition = "2021"
publish = false

[dependencies]
tonic = "0.14"
tonic-prost = "0.14"
prost = "0.14"
tokio = { version = "1", features = ["net", "rt-multi-thread", "macros", "time"] }
tokio-stream = { version = "0.1", features = ["net"] }
futures-util = "0.3"
serde = { version = "1", features = ["derive"] }
serde_json = "1"
env_logger = "0.11"
log = "0.4"
