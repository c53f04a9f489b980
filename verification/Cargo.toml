[package]
name = "racegate"
version = "0.1.0"
edition = "2021"
publish = false

[dependencies]
anyhow = "=1.0.104"
log = "=0.4.34"
serde = { version = "=1.0.229", features = ["derive"] }
serde_json = "=1.0.154"
esp-idf-sys = "=0.38.1"
esp-idf-svc = "=0.53.0"
esp-idf-hal = { version = "=0.47.0", features = ["rmt-legacy"] }
