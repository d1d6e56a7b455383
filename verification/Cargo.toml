[package]
name = "maschine_driver"
version = "0.1.0"
edition = "2021"
publish = false

[dependencies]
midly = "*"
hidapi = "*"
midir = "*"
serde = { version = "1", features = ["derive"] }
toml = "*"
