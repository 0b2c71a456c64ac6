[package]
name = "treasury"
version = "0.1.0"
edition = "2021"
publish = false

[dependencies]
cosmwasm-std = "*"
chrono = "*"
secret-toolkit = "*"
secret-cosmwasm-std = "*"
serde = { version = "*", features = ["derive"] }
schemars = "*"
