[package]
name = "remits"
version = "0.1.0"
edition = "2021"
publish = false

[dependencies]
argh = "*"
bytes = "*"
confy = "*"
env_logger = "*"
futures = "*"
log = "*"
serde = { version = "*", features = ["derive"] }
tokio = { version = "*", features = ["full"] }
tokio-util = { version = "*", features = ["codec"] }
