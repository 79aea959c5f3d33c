[package]
name = "twitter_oracle"
version = "0.1.0"
edition = "2021"
publish = false

[dependencies]
hex = "*"
serde = { version = "*", features = ["derive"] }
serde_json = "*"
anyhow = "*"
log = "*"
env_logger = "*"
dotenvy = "*"
tokio = { version = "*", features = ["rt-multi-thread", "macros", "time"] }
reqwest = { version = "*", default-features = false, features = ["json", "rustls-tls"] }
near-gas = "*"
near-token = "*"
near-api = "*"
inevents-websocket-client = "*"
json-filter = "*"
