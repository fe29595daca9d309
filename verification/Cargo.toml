[package]
name = "futuristic_pulse"
version = "0.1.0"
edition = "2021"
publish = false

[dependencies]
libpulse-binding = "*"
futures = "*"
tokio = { version = "*", features = ["rt-multi-thread"] }
