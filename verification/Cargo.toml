[package]
name = "taurvia_wallet"
version = "0.1.0"
edition = "2021"
publish = false

[dependencies]
anyhow = "1"
base64 = "0.22"
bs58 = "0.5"
hex = "0.4"
serde = { version = "1", features = ["derive"] }
serde_json = "1"
solana-sdk = { version = "2", default-features = false, features = ["full"] }
solana-derivation-path = "2"
alloy = { version = "1", default-features = false }
zeroize = "1"
