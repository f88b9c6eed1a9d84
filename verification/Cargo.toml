[package]
name = "licium_cw721"
version = "0.1.0"
edition = "2021"
publish = false

[dependencies]
cosmwasm-std = "0.16"
cw-storage-plus = "0.8"
cw721 = "0.9"
cw721-base = { version = "0.9", features = ["library"] }
serde = { version = "1.0", features = ["derive"] }
schemars = "0.8"
