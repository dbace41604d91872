[package]
name = "synapse"
version = "0.1.0"
edition = "2021"
publish = false

[dependencies]
bincode = "2"
bytes = "1"
futures = "0.3"
moka = { version = "0.12", features = ["sync"] }
redis = { version = "*", features = ["tokio-comp"] }
tokio = { version = "1", features = ["full"] }
tokio-util = { version = "0.7", features = ["codec"] }
