[package]
name = "pythagoras"
version = "0.1.0"
edition = "2021"
publish = false

[dependencies]
tungstenite = { version = "0.13", default-features = false }
url = "2"
serde = { version = "1", features = ["derive"] }
serde_json = "1"
redis = "0.21"
mongodb = { version = "2", default-features = false, features = ["sync"] }
log = "0.4"
env_logger = "0.9"
