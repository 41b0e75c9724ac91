[package]
name = "solana_bridge"
version = "0.1.0"
edition = "2021"
publish = false

[dependencies]
base64 = "0.22"
bs58 = "0.5"
candid = "0.10"
ed25519-dalek = "2"
ic-cdk = "0.17"
serde = { version = "1", features = ["derive"] }
serde_json = "1"
