[package]
name = "smpp"
version = "0.1.0"
edition = "2021"
publish = false

[dependencies]
tokio = { version = "1", features = ["full"] }
bytes = "1"
futures = "0.3"
async-trait = "0.1"
log = "0.4"
env_logger = "*"
clap = { version = "4", features = ["derive"] }
