[package]
name = "ssbu_optimizer"
version = "0.1.0"
edition = "2021"
publish = false

[dependencies]
rust-ini = "*"
serde = { version = "1", features = ["derive"] }
serde_json = "1"
