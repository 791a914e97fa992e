[package]
name = "certificates"
version = "0.1.0"
edition = "2021"
publish = false

[dependencies]
hex = "*"
sodiumoxide = "*"
anyhow = "*"
clap = { version = "*", features = ["derive"] }
near-crypto = "*"
near-jsonrpc-client = "*"
near-jsonrpc-primitives = "*"
near-primitives = "*"
serde = { version = "*", features = ["derive"] }
serde_json = "*"
tokio = { version = "*", features = ["macros", "rt-multi-thread"] }
