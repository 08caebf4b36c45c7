[package]
name = "miden_tx_core"
version = "0.1.0"
edition = "2021"
publish = false

[dependencies]
miden-crypto = "=0.21.4"
serde = { version = "=1.0.229", features = ["derive"] }
