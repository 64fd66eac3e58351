[package]
name = "baobao_token"
version = "0.1.0"
edition = "2021"
publish = false

[dependencies]
solana-program = "2.2"
spl-token = { version = "8.0", features = ["no-entrypoint"] }
