[package]
name = "blessingrs"
version = "0.1.0"
edition = "2021"
publish = false

[dependencies]
crossterm = "*"
tokio = { version = "*", features = ["time"] }
