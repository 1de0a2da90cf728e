[package]
name = "oqs"
version = "0.1.0"
edition = "2021"
publish = false

[dependencies]
fips203 = "*"
fips204 = "*"
crystals-dilithium = "*"
serde = "*"
serdect = "*"
rand = "*"
