[package]
name = "esp-zenoh-network"
version = "0.1.0"
edition = "2021"
publish = false

[dependencies]
serde = { version = "1", features = ["derive"] }
thiserror = "*"
log = "0.4"
embassy-sync = "*"
yaair = "*"
esp-idf-svc = "*"
