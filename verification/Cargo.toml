[package]
name = "token_airdrop"
version = "0.1.0"
edition = "2021"
publish = false

[dependencies]
clap = { version = "3", features = ["derive"] }
serde = { version = "1", features = ["derive"] }
serde_json = "1"
solana-sdk = "1.10"
spl-associated-token-account = "=1.0.5"
spl-token = "3.3"
