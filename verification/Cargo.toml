[package]
name = "forge_runtime"
version = "0.1.0"
edition = "2021"
publish = false

[dependencies]
anyhow = "=1.0.104"
serde = { version = "=1.0.229", features = ["derive"] }
solana-program = "=2.3.0"
solana-sdk = "=2.3.1"
