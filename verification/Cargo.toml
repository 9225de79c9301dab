[package]
name = "rug_pull_chronicles_program"
version = "0.1.0"
edition = "2021"
publish = false

[dependencies]
anchor-lang = "=0.30.1"
mpl-core = "=0.8.1"
solana-program = "=2.3.0"
