[package]
name = "solana_park"
version = "0.1.0"
edition = "2021"
publish = false

[dependencies]
anchor-lang = "=0.32.2"
anchor-spl = "=0.32.2"
spl-token-2022 = "=8.0.1"
spl-token-metadata-interface = "=0.7.0"
