[package]
name = "pq_core"
version = "0.1.0"
edition = "2021"
publish = false

[dependencies]
aes-gcm = "0.10"
hkdf = "0.12"
sha2 = "0.10"
rand = "0.8"
zeroize = "1"
thiserror = "1"
pqcrypto-traits = "*"
pqcrypto-kyber = "*"
pqcrypto-dilithium = "*"
