[package]
name = "dutch-auction-launchpad"
version = "0.1.0"
edition = "2021"
publish = false

[dependencies]
cosmwasm-schema = "2"
cosmwasm-std = "2"
cw-storage-plus = "2"
cw-utils = "2"
cw2 = "2"
thiserror = "1"
