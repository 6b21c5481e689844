[package]
name = "sov_nft"
version = "0.1.0"
edition = "2021"
publish = false

[dependencies]
sov-modules-api = { version = "=0.3.0", default-features = false }
anyhow = "=1.0.104"
serde = { version = "=1.0.229", features = ["derive"] }
serde_json = "=1.0.154"
borsh = { version = "=1.8.1", features = ["derive"] }
tokio = { version = "=1.54.1", features = ["macros", "rt-multi-thread"] }
tracing = "=0.1.44"
tracing-subscriber = "=0.3.23"
