[package]
name = "dsr"
version = "0.1.0"
edition = "2021"

[dependencies]
uuid = { version = "*", features = ["v4"] }
rand = "*"
bus = "*"
log = "*"
pretty_env_logger = "*"
