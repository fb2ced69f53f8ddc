[package]
name = "stakeable_token"
version = "0.1.0"
edition = "2021"
publish = false

[dependencies]
casper-types = { version = "1", default-features = false, features = ["std"] }
casper-contract = { version = "1", default-features = false, features = ["std"] }
renvm-sig = "0.1"
hex = "0.4"
blake2 = "0.9"
num-traits = "0.2"
once_cell = "1"
