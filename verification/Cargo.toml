[package]
name = "cw_payments"
version = "0.1.0"
edition = "2021"
publish = false

[dependencies]
cosmwasm-std = "1.5"
cw-storage-plus = "1.2"
cw20 = "1.1"
cw-utils = "1.0"
schemars = "0.8"
serde = { version = "1", features = ["derive"] }
