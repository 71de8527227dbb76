[package]
name = "duty_engineer_lib"
version = "0.1.0"
edition = "2021"
publish = false

[dependencies]
anyhow = "1"
asterisk-manager = "2"
chrono = { version = "0.4", features = ["serde"] }
directories = "6"
env_logger = "0.11"
log = "0.4"
serde = { version = "1", features = ["derive"] }
serde_json = "1"
toml = "0.9"
