[package]
name = "eth_canon"
version = "0.1.0"
edition = "2021"
publish = false

[dependencies]
alloy-primitives = "*"
anyhow = "*"
ethers-core = "*"
