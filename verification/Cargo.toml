[package]
name = "aptos_logger"
version = "0.1.0"
edition = "2021"
publish = false

[dependencies]
backtrace = "*"
chrono = "*"
hostname = "*"
serde = { version = "*", features = ["derive"] }
serde_json = "*"
