[package]
name = "wallet_error"
version = "0.1.0"
edition = "2021"
publish = false

[dependencies]
bitcoin = "0.18"
secp256k1 = "0.12"
rust-crypto = "0.2"
