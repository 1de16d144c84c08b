[package]
name = "futures_crypto"
version = "0.1.0"
edition = "2021"
publish = false

[dependencies]
openssl = "*"
futures = { version = "*", features = ["thread-pool"] }
