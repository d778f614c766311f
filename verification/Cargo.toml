[package]
name = "btc_signer"
version = "0.1.0"
edition = "2021"
publish = false

[dependencies]
bitcoin = "0.32"
hex = "0.4"
reqwest = { version = "0.12", default-features = false }
serde = { version = "1", features = ["derive"] }
serde_json = "1"
thiserror = "1"
