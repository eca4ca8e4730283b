[package]
name = "fanfury"
version = "0.1.0"
edition = "2021"
publish = false

[dependencies]
cosmwasm-std = "1.5"
cw2 = "1.1"
cw20 = "1.1"
cw20-base = { version = "1.1", features = ["library"] }
cw-storage-plus = "1.2"
cw-utils = "1.0"
serde = { version = "1", features = ["derive"] }
thiserror = "1"
