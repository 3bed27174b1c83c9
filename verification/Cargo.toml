[package]
name = "shipwright"
version = "0.1.3"
edition = "2021"
publish = false

[dependencies]
aes-gcm = "=0.10.3"
pbkdf2 = "=0.12.2"
sha2 = "=0.10.9"
hmac = "=0.12.1"
hex = "=0.4.3"
rand = "=0.8.8"
uuid = { version = "=1.29.0", features = ["v4"] }
regex = "=1.13.1"
serde = { version = "=1.0.229", features = ["derive"] }
serde_json = "=1.0.154"
serde_yaml = "=0.9.34"
anyhow = "=1.0.104"
chrono = "=0.4.45"
tokio = { version = "=1.54.1", features = ["full"] }
clap = { version = "4", features = ["derive"] }
axum = { version = "0.7", features = ["ws"] }
tokio-tungstenite = "0.21"
futures-util = "0.3"
bollard = "0.16"
reqwest = { version = "0.12", default-features = false, features = ["json", "rustls-tls"] }
rusqlite = { version = "0.31", features = ["bundled"] }
dialoguer = "0.11"
dirs = "5"
tracing = "0.1"
tracing-subscriber = "0.3"
tar = "0.4"
flate2 = "1"
ratatui = "0.26"
crossterm = "0.27"
