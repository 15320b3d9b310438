[package]
name = "fusion_swap"
version = "0.1.0"
edition = "2021"
publish = false

[dependencies]
hex = "=0.4.3"
serde_json = "=1.0.154"
schemars = "=0.8.22"
near-sdk = { version = "=5.29.1", features = ["non-contract-usage"] }
near-contract-standards = "=5.29.1"
anchor-lang = "=1.2.1"
anchor-spl = "=1.2.1"
solana-sha256-hasher = { version = "=3.1.0", features = ["sha2"] }
