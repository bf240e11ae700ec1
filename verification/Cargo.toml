[package]
name = "cw721-non-transferable"
version = "0.1.0"
edition = "2021"
publish = false

[dependencies]
base64 = "0.21"
sha2 = "0.10"
hex = "0.4"
cosmwasm-std = "1.5"
cosmwasm-schema = "1.5"
cw2 = "1.1"
cw721 = "0.18"
cw721-base = "0.18"
cw-ownable = "0.5"
cw-storage-plus = "1.1"
serde-json-wasm = "0.5"
thiserror = "1"
