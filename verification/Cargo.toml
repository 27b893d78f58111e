[package]
name = "session_driver"
version = "0.1.0"
edition = "2021"
publish = false

[dependencies]
chacha20poly1305 = "0.10"
rand_core = { version = "0.6", features = ["getrandom"] }
rustls-pki-types = "1"
