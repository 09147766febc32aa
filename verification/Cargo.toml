[package]
name = "btmanager"
version = "0.1.0"
edition = "2021"
publish = false

[dependencies]
log = "*"
env_logger = "*"
serde = { version = "*", features = ["derive"] }
toml = "*"
rusqlite = { version = "*", features = ["bundled"] }
thiserror = "*"
