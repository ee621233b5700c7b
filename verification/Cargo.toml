[package]
name = "ata"
version = "0.1.0"
edition = "2021"
publish = false

[dependencies]
solana-address = { version = "=2.9.0", features = ["curve25519"] }
pinocchio = "=0.11.2"
pinocchio-system = "=0.6.1"
pinocchio-token = "=0.7.0"
