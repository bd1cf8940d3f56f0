[package]
name = "dca"
version = "0.1.0"
edition = "2021"
publish = false

[dependencies]
cosmwasm-std = "=1.5.11"
cw-asset = "=3.1.1"
serde = { version = "1", features = ["derive"] }
