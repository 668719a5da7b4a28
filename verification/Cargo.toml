[package]
name = "flash_book"
version = "0.1.0"
edition = "2021"
publish = false

[dependencies]
anchor-lang = { version = "=1.2.2", features = ["init-if-needed"] }
anchor-spl = { version = "=1.2.2", default-features = false, features = ["associated_token", "mint", "token", "solana-v3"] }
pyth-solana-receiver-sdk = "=2.0.0"
solana-security-txt = "1.1"
