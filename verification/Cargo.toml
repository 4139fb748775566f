[package]
name = "netgauge"
version = "0.1.0"
edition = "2021"
publish = false

[dependencies]
rumqttc = { version = "0.24", default-features = false }
slint = { version = "1", default-features = false, features = ["std", "compat-1-2"] }
toml = "0.8"
serde = { version = "1", features = ["derive"] }
log = "0.4"
env_logger = "0.11"
rand = "0.9"
