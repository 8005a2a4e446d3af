[package]
name = "transfer_hook_rng"
version = "0.1.0"
edition = "2021"
publish = false

[dependencies]
borsh = "=1.8.1"
solana-program = "=1.18.26"
spl-tlv-account-resolution = "=0.6.5"
spl-token-2022 = { version = "=3.0.5", features = ["no-entrypoint"] }
spl-transfer-hook-interface = "=0.6.5"
