[package]
name = "rust_ipmi"
version = "0.1.0"
edition = "2021"
publish = false

[dependencies]
aes = "0.8"
bitvec = "1"
cbc = "0.1"
hmac = "0.12"
rand = "0.8"
sha2 = "0.10"
thiserror = "1"
