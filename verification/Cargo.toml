[package]
name = "output_tester"
version = "0.1.0"
edition = "2021"
publish = false

[dependencies]
anyhow = "*"
duct = "*"
env_logger = "*"
log = "*"
regex = "*"
serde = { version = "*", features = ["derive"] }
serde_json = "*"
serde_yaml = "*"
