[package]
name = "stake_pool"
version = "0.1.0"
edition = "2021"
publish = false

[dependencies]
solana-program = "=5.1.0"
solana-system-interface = "=3.3.0"
solana-stake-interface = "*"
spl-token = { version = "=9.0.0", default-features = false, features = ["no-entrypoint"] }

[dev-dependencies]
borsh = "=1.8.1"
