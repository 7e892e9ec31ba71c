[package]
name = "amf"
version = "0.1.0"
edition = "2021"
publish = false

[dependencies]
curve25519-dalek = { version = "4", features = ["rand_core", "digest"] }
rand = "0.8"
sha2 = "0.10"
serde = { version = "1", features = ["derive"] }
