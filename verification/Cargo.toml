[package]
name = "k4q"
version = "0.1.0"
edition = "2021"
publish = false

[dependencies]
config = { version = "=0.11.0", default-features = false, features = ["toml"] }
serde = { version = "=1.0.229", features = ["derive"] }
clap = "=4.6.7"
kafka = { version = "*", default-features = false }
