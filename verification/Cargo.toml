[package]
name = "oracle_contracts"
version = "0.1.0"
edition = "2021"
publish = false

[dependencies]
blake2 = "0.9"
cosmwasm-std = "1.5"
cw-storage-plus = "1.2"
cw2 = "1.1"
cw20 = "1.1"
hex = "0.4"
schemars = "0.8"
serde = { version = "1", features = ["derive"] }
thiserror = "1"

[dev-dependencies]
ed25519-zebra = "3"
rand = "0.8"
