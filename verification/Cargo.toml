[package]
name = "foxglove_api"
version = "0.1.0"
edition = "2021"
publish = false

[dependencies]
serde_json = "*"
reqwest = { version = "*", default-features = false }
tokio = { version = "*", features = ["sync", "rt-multi-thread"] }
arc-swap = "*"

[dev-dependencies]
percent-encoding = "*"
