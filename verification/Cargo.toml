[package]
name = "upset"
version = "0.1.0"
edition = "2021"
publish = false

[dependencies]
clap = { version = "*", features = ["derive"] }
indicatif = "*"
serde = { version = "*", features = ["derive"] }
serde_yaml = "*"
