[package]
name = "mcai_worker_sdk"
version = "0.1.0"
edition = "2021"
publish = false

[dependencies]
async-std = "1"
lapin = { version = "1", default-features = false }
reqwest = { version = "0.12", default-features = false }
schemars = "0.8"
serde = { version = "1", features = ["derive"] }
serde_json = "1"
