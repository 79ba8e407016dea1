[package]
name = "casper_staking"
version = "0.1.0"
edition = "2021"
publish = false

[dependencies]
casper-types = "=1.5.0"
casper-contract = { version = "=1.4.4", default-features = false, features = ["std"] }
hex = "=0.4.3"
