[package]
name = "enclave_core"
version = "0.1.0"
edition = "2021"
publish = false

[dependencies]
bech32 = "0.7.2"
lazy_static = "1.4.0"
log = "0.4"
