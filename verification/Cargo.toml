[package]
name = "simple_tor"
version = "0.1.0"
edition = "2021"
publish = false

[dependencies]
anyhow = "*"
clap = { version = "*", features = ["derive"] }
env_logger = "*"
log = "*"
tokio = { version = "*", features = ["io-util", "macros", "net", "rt-multi-thread"] }
