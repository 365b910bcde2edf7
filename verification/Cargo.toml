[package]
name = "infinitree"
version = "0.1.0"
edition = "2021"
publish = false

[dependencies]
ring = "*"
blake3 = "*"
argon2 = "*"
flume = "*"
yubico_manager = "*"
