[package]
name = "terraswap_token"
version = "0.1.0"
edition = "2021"
publish = false

[dependencies]
cosmwasm-std = "1"
cw2 = "0.13"
cw20-base = { version = "0.13", features = ["library"] }
terraswap = "=2.9.0"
minicov = "0.2"
