[package]
name = "query_engine"
version = "0.1.0"
edition = "2021"
publish = false

[dependencies]
lru-cache = "=0.1.2"
chrono = "=0.4.45"
serde_json = "=1.0.151"
base64 = "=0.13.1"
serde = { version = "=1.0.229", features = ["derive"] }
url = "2"
