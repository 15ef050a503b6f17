[package]
name = "nostr_relay"
version = "0.1.0"
edition = "2021"
publish = false

[dependencies]
futures = "0.3"
governor = "0.4"
http = "0.2"
hyper = { version = "0.14", features = ["client", "server", "http1", "http2", "tcp"] }
prometheus = { version = "0.13", default-features = false }
serde = { version = "1.0", features = ["derive"] }
serde_json = "1.0"
tokio = { version = "1", features = ["full"] }
tokio-tungstenite = "0.17"
tracing = "0.1"
tungstenite = "0.17"
