[package]
name = "livechat"
version = "0.1.0"
edition = "2021"
publish = false

[dependencies]
percent-encoding = "2"
serde = { version = "1", features = ["derive"] }
serde_json = "1"
toml = "0.8"
tokio = { version = "1", features = ["full"] }
tokio-tungstenite = "0.26"
futures-util = "0.3"
axum = { version = "0.8", features = ["ws"] }
serenity = "0.12"
tracing = "0.1"
tracing-subscriber = { version = "0.3", features = ["env-filter"] }
rustls = { version = "0.23", default-features = false, features = ["ring", "std"] }
