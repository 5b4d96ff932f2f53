[package]
name = "opaque_bridge"
version = "0.1.0"
edition = "2021"
publish = false

[dependencies]
opaque-ke = { version = "=3.0.0", features = ["argon2", "ristretto255"] }
argon2 = "=0.5.3"
rand = "0.8"
rand_chacha = "0.3"
hex = "0.4"
zeroizing-alloc = "*"
