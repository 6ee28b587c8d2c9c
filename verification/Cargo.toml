[package]
name = "token_verifier"
version = "0.1.0"
edition = "2021"
publish = false

[dependencies]
chrono = "0.4"
constant_time_eq = "0.3"
hmac = "0.12"
parking_lot = "0.12"
rand = "0.8"
sha2 = "0.10"
