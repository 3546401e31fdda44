[package]
name = "jiu"
version = "0.1.0"
edition = "2021"
publish = false

[dependencies]
anyhow = "1"
owo-colors = "4"
serde = { version = "1", features = ["derive"] }
supports-color = "3"
toml = "*"
