[package]
name = "cashweb"
version = "0.1.0"
edition = "2021"
publish = false

[dependencies]
secp256k1 = "0.20"
ring = "*"
ripemd160 = "0.9"
aes = "0.7"
block-modes = "0.8"
base64 = "0.13"
http = "*"

[dev-dependencies]
rand = "0.8"
hex = "*"
