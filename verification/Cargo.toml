[package]
name = "token22-staking"
version = "0.1.0"
edition = "2021"
publish = false

[dependencies]
anchor-lang = "0.30.1"
anchor-spl = "0.30.1"
solana-program = "1.18"
