[package]
name = "your_wallet_stake_pool"
version = "0.1.0"
edition = "2021"
publish = false

[dependencies]
spl-token-2022 = "=11.1.0"
solana-program = "=5.1.0"
borsh = "=1.8.1"
solana-system-interface = "*"
