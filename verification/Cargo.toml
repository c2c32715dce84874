[package]
name = "avs_coordinator"
version = "0.1.0"
edition = "2021"
publish = false

[dependencies]
serde = { version = "=1.0.229", features = ["derive"] }
serde_json = "=1.0.151"
near-sdk = { version = "=5.29.1", features = ["non-contract-usage"] }
near-sdk-contract-tools = "=4.0.0"
