[package]
name = "cloaked"
version = "0.1.0"
edition = "2021"
publish = false

[dependencies]
anchor-lang = "0.31.1"
solana-security-txt = "1.1.1"
