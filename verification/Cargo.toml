[package]
name = "helium_config_service_cli"
version = "0.1.0"
edition = "2021"
publish = false

[dependencies]
anyhow = "*"
clap = { version = "*", features = ["derive", "env"] }
helium-crypto = "*"
rand = "*"
serde = { version = "*", features = ["derive"] }
serde_json = "*"
