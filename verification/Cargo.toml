[package]
name = "sol_rewards_vault_program"
version = "0.1.0"
edition = "2021"
publish = false

[dependencies]
solana-program = "*"
solana-pubkey = { version = "*", features = ["curve25519"] }
