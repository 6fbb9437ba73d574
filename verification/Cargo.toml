[package]
name = "secp256r1_curve"
version = "0.1.0"
edition = "2021"
publish = false

[dependencies]
bs58 = "0.5"
p256 = "0.13"
rand = "0.8"

[dev-dependencies]
bincode = "1.3"
