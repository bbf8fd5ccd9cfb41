[package]
name = "tx_validator"
version = "0.1.0"
edition = "2021"
publish = false

[dependencies]
ed25519-dalek = "2"
k256 = { version = "0.13", features = ["ecdsa", "schnorr"] }
sha2 = "0.10"
clap = { version = "4", features = ["derive"] }
async-trait = "0.1"
serde = { version = "1", features = ["derive"] }
serde_json = "1"
