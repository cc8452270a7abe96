[package]
name = "eqsimp"
version = "0.1.0"
edition = "2021"
publish = false

[dependencies]
egg = { version = "0.6", features = ["serde-1"] }
num-bigint = "0.4"
num-rational = "0.4"
num-traits = "0.2"
serde = { version = "1", features = ["derive"] }
serde_json = "1"
env_logger = { version = "0.9", default-features = false }
