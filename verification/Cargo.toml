[package]
name = "ica_controller"
version = "0.1.0"
edition = "2021"
publish = false

[dependencies]
cosmwasm-schema = "1.5"
cosmwasm-std = { version = "1.5", features = ["stargate"] }
cw-storage-plus = "1.2"
cw2 = "1.1"
prost = "0.12"
prost-types = "0.12"
serde_json = "1"
