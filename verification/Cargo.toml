[package]
name = "solana_arbitrage_bot"
version = "0.1.0"
edition = "2021"
publish = false

[dependencies]
borsh = { version = "1", features = ["derive"] }
solana-program = "*"
spl-token = { version = "*", features = ["no-entrypoint"] }
thiserror = "*"
