[package]
name = "aether"
version = "0.1.0"
edition = "2021"
publish = false

[dependencies]
serde = { version = "1", features = ["derive"] }
serde_json = "1"
uuid = { version = "1", features = ["v4", "serde"] }
base64 = "0.22"
bcrypt = "*"
anyhow = "1"
async-trait = "0.1"
axum = "0.8"
chrono = "0.4"
clap = { version = "4", features = ["derive"] }
crossterm = { version = "*", features = ["event-stream"] }
dirs = "*"
futures = "0.3"
ratatui = "*"
redis = { version = "*", features = ["tokio-comp"] }
reqwest = { version = "0.12", default-features = false, features = ["json"] }
thiserror = "2"
tokio = { version = "1", features = ["full"] }
tokio-util = "0.7"
tracing = "0.1"
tracing-subscriber = "0.3"
