[package]
name = "solotto"
version = "0.1.0"
edition = "2021"
publish = false

[dependencies]
anchor-lang = "=1.2.1"
solana-program = "=5.1.0"
