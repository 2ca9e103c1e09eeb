[package]
name = "shard_manager"
version = "0.1.0"
edition = "2021"
publish = false

[dependencies]
futures = "0.1"
tokio-core = "0.1"
tokio-timer = "0.1"
tungstenite = { version = "0.5", default-features = false }
