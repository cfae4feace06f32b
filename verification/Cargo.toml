[package]
name = "hooksmith"
version = "0.1.0"
edition = "2021"
publish = false

[dependencies]
clap = { version = "4", features = ["derive"] }
dialoguer = { version = "0.11" }
serde = { version = "1", features = ["derive"] }
serde_yaml = { version = "0.9" }
thiserror = { version = "1" }
