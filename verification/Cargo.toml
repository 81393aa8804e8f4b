[package]
name = "mup_supervisor"
version = "0.1.0"
edition = "2021"
publish = false

[dependencies]
url = "2"
serde = { version = "1", features = ["derive"] }
serde_json = "1"
log = "0.4"
env_logger = "0.11"
tokio = { version = "1", features = ["rt", "sync", "time"] }
reqwest = { version = "0.12", default-features = false, features = ["json"] }
portable-pty = "0.8"
tray-icon = "*"
