[package]
name = "stake"
version = "0.1.0"
edition = "2021"
publish = false

[dependencies]
serum-borsh = "=0.8.1-serum.1"
serum-pool-schema = "=0.4.7"
solana-sdk = "=1.18.26"
spl-token = "=3.5.0"
