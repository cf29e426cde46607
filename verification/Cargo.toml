[package]
name = "slh_verifier"
version = "0.1.0"
edition = "2021"
publish = false

[dependencies]
sha2 = "0.10"
hmac = "0.12"
winterfell = "0.12"
winter-utils = "0.12"
