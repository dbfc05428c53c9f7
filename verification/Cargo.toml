[package]
name = "cw721_piggy_bank"
version = "0.1.0"
edition = "2021"
publish = false

[dependencies]
cosmwasm-std = "1.5"
cosmwasm-schema = "1.5"
cw2 = "1.1"
cw721 = "0.18"
cw721-base = "0.18"
cw-storage-plus = "1.2"
cw-utils = "1.0"
cw-denom = "*"
url = "2"
