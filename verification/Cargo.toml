[package]
name = "deepseek_rust"
version = "0.1.0"
edition = "2021"
publish = false

[dependencies]
secrecy = "0.8"
reqwest = { version = "*", default-features = false }
dotenvy = "*"
thiserror = "*"
tokio = { version = "*", default-features = false, features = ["time"] }
