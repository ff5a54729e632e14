[package]
name = "github-notifier-ws"
version = "0.1.0"
edition = "2021"
publish = false

[dependencies]
url = "2"
urlencoding = "2"
serde = { version = "1", features = ["derive"] }
serde_yaml = "0.9"
anyhow = "1"
chrono = "0.4"
dirs = "5"
log = "0.4"
env_logger = "0.11"
tokio = { version = "1", features = ["sync", "time", "macros", "rt-multi-thread"] }
reqwest = { version = "0.12", default-features = false, features = ["json", "rustls-tls"] }
keyring = "3"
notify = "6"
