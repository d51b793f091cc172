[package]
name = "delegated_transfer"
version = "0.1.0"
edition = "2021"
publish = false

[dependencies]
borsh = "1"
solana-program = "1.18"
spl-token = { version = "4.0", features = ["no-entrypoint"] }
