[package]
name = "ota_update"
version = "0.1.0"
edition = "2021"
publish = false

[dependencies]
anyhow = "1"
esp-idf-svc = "*"
heapless = "0.8"
log = "0.4"
serde_json = "1"
