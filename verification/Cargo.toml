[package]
name = "speedskating_backend"
version = "0.1.0"
edition = "2021"
publish = false

[dependencies]
nanoid = "*"
nats-jwt = "*"
chrono = "*"
nix = { version = "*", features = ["time"] }
async-nats = "*"
tokio = { version = "1", features = ["full"] }
futures = "*"
serde = { version = "1", features = ["derive"] }
serde_json = "1"
serde_yaml = "*"
clap = { version = "4", features = ["derive"] }
color-eyre = "*"
tracing = "*"
tracing-subscriber = { version = "*", features = ["env-filter"] }
axum = { version = "*", features = ["ws"] }
tower-http = { version = "*", features = ["cors", "fs"] }
tokio-tungstenite = "*"
reverse-proxy-service = "*"
gpio-cdev = { version = "*", features = ["async-tokio"] }
crossterm = "*"
