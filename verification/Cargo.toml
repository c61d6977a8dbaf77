[package]
name = "relay_metrics"
version = "0.1.0"
edition = "2021"
publish = false

[dependencies]
chrono = "=0.4.45"
axum = "=0.8.9"
tokio = { version = "*", features = ["macros", "rt-multi-thread", "net"] }
tower = "*"
tracing = "*"
tracing-subscriber = "*"
serde = { version = "*", features = ["derive"] }
libp2p = { version = "=0.56.0", default-features = false, features = ["tokio", "tcp", "dns", "websocket", "tls", "noise", "yamux", "ping", "identify", "relay", "macros"] }
