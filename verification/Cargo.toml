[package]
name = "castle_vault"
version = "0.1.0"
edition = "2021"
publish = false

[dependencies]
solana-maths = "=0.1.2"
spl-math = "=0.3.0"
itertools = "=0.15.0"
solana-program = "1"
spl-token-lending = "*"
port-variable-rate-lending-instructions = "*"
