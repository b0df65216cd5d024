[package]
name = "heracles"
version = "0.1.0"
edition = "2021"
publish = false

[dependencies]
anyhow = "1"
axum = "*"
chrono = "0.4"
maud = { version = "*", features = ["axum"] }
parse_duration = "2"
serde = { version = "1", features = ["derive"] }
serde_yaml = "0.9"
tracing = "0.1"
