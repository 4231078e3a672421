[package]
name = "schnorr_engine"
version = "0.1.0"
edition = "2021"
publish = false

[dependencies]
k256 = "*"
sha2 = "*"
hex = "*"
rayon = "*"
serde = { version = "*", features = ["derive"] }
serde_json = "*"
