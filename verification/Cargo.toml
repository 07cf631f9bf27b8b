[package]
name = "node_runner"
version = "0.1.0"
edition = "2021"
publish = false

[dependencies]
serde_json = "1"
bollard = "0.16"
futures-util = "0.3"
thiserror = "1"
tokio = { version = "1", features = ["full"] }
tracing = "0.1"
tracing-subscriber = "0.3"
fs_extra = "1"
