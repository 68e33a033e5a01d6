[package]
name = "resonance"
version = "0.1.0"
edition = "2021"
publish = false

[dependencies]
argon2 = "0.5"
bip39 = { version = "2", features = ["rand"] }
chacha20poly1305 = "0.10"
hex = "0.4"
hkdf = "0.12"
ml-dsa = "*"
serde = { version = "1", features = ["derive"] }
serde_json = "1"
sha3 = "0.10"
zeroize = "1"
