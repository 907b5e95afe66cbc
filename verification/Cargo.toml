[package]
name = "token_ledger"
version = "0.1.0"
edition = "2021"
publish = false

[dependencies]
anyhow = "1"
cosmwasm-std = "1.5"
cw-multi-test = "0.20"
serde = { version = "1", default-features = false, features = ["derive"] }
