[package]
name = "mfight_sdk"
version = "0.1.0"
edition = "2021"
publish = false

[dependencies]
near-sdk = { version = "4.1", default-features = false }
serde = { version = "1", features = ["derive"] }
schemars = "0.8"
rand = { version = "0.8", default-features = false, features = ["std_rng"] }
