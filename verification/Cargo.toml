[package]
name = "rust_drone"
version = "0.1.0"
edition = "2021"
publish = false

[dependencies]
crossbeam = "0.8"
rand = "0.8"
log = "0.4"
anyhow = "1"
toml = "0.8"
env_logger = "0.11"
serde = { version = "1", features = ["derive"] }
