[package]
name = "espanso"
version = "0.1.0"
edition = "2021"
publish = false

[dependencies]
dirs = "=2.0.2"
log = "0.4"
serde = { version = "=1.0.229", features = ["derive"] }
serde_yaml = "=0.8.26"
