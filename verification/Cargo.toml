[package]
name = "stellar_duels"
version = "0.1.0"
edition = "2021"
publish = false

[dependencies]
soroban-sdk = { version = "=29.0.0", features = ["testutils"] }

[dev-dependencies]
sha2 = "=0.11.0"
