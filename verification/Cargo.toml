[package]
name = "token_translator"
version = "0.1.0"
edition = "2021"
publish = false

[dependencies]
anyhow = "1.0"
bs58 = "0.4"
cosmwasm-schema = "1.5"
cosmwasm-std = "1.5"
cw-storage-plus = "1.2"
cw-utils = "1.0"
cw20 = "1.1"
sei-cosmwasm = "0.4"
serde-json-wasm = "0.5"
