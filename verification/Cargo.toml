[package]
name = "fair_dealing"
version = "0.1.0"
edition = "2021"
publish = false

[dependencies]
curve25519-dalek = { version = "4", features = ["digest", "rand_core"] }
rand = "0.8"
sha2 = "0.10"
