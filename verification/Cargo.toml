[package]
name = "solana_swap"
version = "0.1.0"
edition = "2021"
publish = false

[dependencies]
anyhow = "1"
bs58 = "0.4"
dotenv = "0.15"
solana-sdk = "1.18"
spl-associated-token-account = "2.3"
spl-token = "4.0"
