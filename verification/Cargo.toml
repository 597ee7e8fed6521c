[package]
name = "aucty_program"
version = "0.1.0"
edition = "2021"
publish = false

[dependencies]
solana-program = "=3.0.0"
solana-pubkey = { version = "3", features = ["curve25519"] }
spl-token = { version = "=9.0.0", default-features = false, features = ["no-entrypoint"] }
thiserror = "=2.0.21"
