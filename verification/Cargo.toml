[package]
name = "neato_bridge"
version = "0.1.0"
edition = "2021"
publish = false

[dependencies]
chrono = "0.4"
hex = "0.4"
hmac = "0.12"
sha2 = "0.10"
serde = { version = "1", features = ["derive"] }
serde_json = "1"
serde_repr = "0.1"
log = "0.4"
pretty_env_logger = "0.5"
rand = "0.8"
eyre = "0.6"
color-eyre = "0.6"
config = "0.14"
rumqttc = "0.24"
tokio = { version = "1", features = ["rt-multi-thread", "macros", "sync", "time", "signal"] }
surf = "2"
