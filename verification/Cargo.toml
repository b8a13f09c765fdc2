[package]
name = "terraswap_pool"
version = "0.1.0"
edition = "2021"
publish = false

[dependencies]
cosmwasm-std = "0.16"
cw2 = "0.8"
cw20 = "0.8"
cw-storage-plus = "0.8"
protobuf = "2"
schemars = "0.8"
serde = { version = "1", default-features = false, features = ["derive"] }
terra-cosmwasm = "2.2"
terraswap = "~2.4"
thiserror = "1"
