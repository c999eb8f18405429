[package]
name = "swap_to_sol"
version = "0.1.0"
edition = "2021"
publish = false

[dependencies]
anchor-lang = "=1.2.0"
anchor-spl = "=1.2.0"
spl-token = { version = "=9.0.0", features = ["no-entrypoint"] }
solana-pubkey = { version = "=3.0.0", features = ["curve25519"] }
