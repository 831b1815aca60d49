[package]
name = "maxbtc"
version = "0.1.0"
edition = "2021"
publish = false

[dependencies]
cosmwasm-std = "2"
cosmwasm-schema = "2"
cw-storage-plus = "2"
cw2 = "2"
cw-ownable = "2"
cw-utils = "2"
semver = "1"
serde = { version = "1", features = ["derive"] }
schemars = "0.8"
serde-json-wasm = "1"
thiserror = "1"
neutron-std = "*"
neutron-sdk = "*"
prost = "*"
