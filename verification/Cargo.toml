[package]
name = "fiaas_logger"
version = "0.1.0"
edition = "2021"
publish = false

[dependencies]
humantime = "2"
log = { version = "0.4", features = ["std"] }
serde_json = "1"
