[package]
name = "ore_cli_utils"
version = "0.1.0"
edition = "2021"
publish = false

[dependencies]
bincode = "=1.3.3"
ore-api = "=2.2.0"
steel = "=1.3.0"
solana-program = "=1.18.26"
solana-sdk = "=1.18.26"
spl-associated-token-account = { version = "=2.3.0", features = ["no-entrypoint"] }
