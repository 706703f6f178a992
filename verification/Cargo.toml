[package]
name = "cw_usdc"
version = "0.1.0"
edition = "2021"
publish = false

[dependencies]
cosmwasm-std = "1"
cw2 = "1"
osmo-bindings = "*"
thiserror = "1"
