[package]
name = "fermentation_core"
version = "0.1.0"
edition = "2021"
publish = false

[dependencies]
chrono = "0.4"
serde = { version = "1", features = ["derive"] }
serde_json = "1"
async-std = "1"
rppal = "*"
glob = "0.3"
