[package]
name = "aptos_deployer"
version = "0.1.0"
edition = "2021"
publish = false

[dependencies]
sha3 = "=0.10.9"
hex = "=0.4.3"

[dev-dependencies]
bcs = "=0.1.6"
