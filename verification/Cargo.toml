[package]
name = "helloworld"
version = "0.1.0"
edition = "2021"
publish = false

[dependencies]
borsh = { version = "1", features = ["derive"] }
solana-program = "1.18"
spl-token = { version = "3.5", features = ["no-entrypoint"] }
