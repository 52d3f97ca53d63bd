[package]
name = "speed_reader"
version = "0.1.0"
edition = "2021"
publish = false

[dependencies]
anyhow = "1"
clipboard = "0.5"
dirs = "5"
env_logger = { version = "0.11", default-features = false }
objc = "0.2"
serde = { version = "1", features = ["derive"] }
toml = "0.8"
tray-icon = { version = "0.19", default-features = false }
