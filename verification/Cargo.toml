[package]
name = "bs721_contracts"
version = "0.1.0"
edition = "2021"
publish = false

[dependencies]
cosmwasm-schema = "1"
cosmwasm-std = "1"
cw-storage-plus = "1"
cw-utils = "1"
cw2 = "1"
cw4 = "1"
rand = "0.8"
rand_chacha = "0.3"
rand_core = "0.6"
schemars = "0.8"
serde = { version = "1", features = ["derive"] }
sha2 = "0.10"
thiserror = "1"
