[package]
name = "beerus_core"
version = "0.1.0"
edition = "2021"
publish = false

[dependencies]
ethers = { version = "=1.0.2", default-features = false }
eyre = "0.6"
log = "0.4"
reqwest = { version = "0.11", default-features = false }
serde = { version = "1", features = ["derive"] }
serde_json = "1"
starknet = "=0.3.0"
tokio = { version = "1", features = ["sync", "rt", "time"] }
wiremock = "0.5"
