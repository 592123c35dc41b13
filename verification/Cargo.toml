[package]
name = "validator_identity"
version = "0.1.0"
edition = "2021"
publish = false

[dependencies]
ed25519-dalek = "2"
x25519-dalek = { version = "2", features = ["static_secrets"] }
rand = "0.8"
anyhow = "1"
url = "2"
async-trait = "0.1"
