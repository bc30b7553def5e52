[package]
name = "authcore"
version = "0.1.0"
edition = "2021"
publish = false

[dependencies]
ammonia = "*"
mime_guess = "*"
serde = { version = "*", features = ["derive"] }
serde_json = "*"
