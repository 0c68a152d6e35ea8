[package]
name = "dlm"
version = "0.1.0"
edition = "2021"
publish = false

[dependencies]
async-channel = "*"
chrono = "*"
indicatif = "*"
reqwest = { version = "*", default-features = false }
tokio = { version = "*", features = ["rt", "time"] }
