[package]
name = "dephy_io_wallet_demo"
version = "0.1.0"
edition = "2021"
publish = false

[dependencies]
solana-program = "*"
