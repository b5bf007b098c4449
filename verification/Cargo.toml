[package]
name = "multiply_prover"
version = "0.1.0"
edition = "2021"
publish = false

[dependencies]
hex = "0.4"
bincode = "1"
serde = { version = "1", features = ["derive"] }
serde_json = "1"
clap = { version = "4", features = ["derive"] }
risc0-zkvm = "*"
