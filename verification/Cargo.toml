[package]
name = "secp256r1_precompile"
version = "0.1.0"
edition = "2021"
publish = false

[dependencies]
p256 = "0.13"
ecdsa = { version = "0.16", features = ["signing", "verifying"] }
elliptic-curve = "0.13"

[dev-dependencies]
rand = "0.8"
