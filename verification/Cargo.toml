[package]
name = "euclid"
version = "0.1.0"
edition = "2021"
publish = false

[dependencies]
cosmwasm-std = { version = "1.5", features = ["stargate"] }
cw-storage-plus = "1.2"
cw20 = "1.1"
cosmwasm-schema = "1.5"
cw-multi-test = "0.20"
