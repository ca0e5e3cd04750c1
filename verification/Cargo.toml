[package]
name = "sheesh"
version = "0.1.0"
edition = "2021"
publish = false

[dependencies]
scrypt = "0.11"
