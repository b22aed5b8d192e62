[package]
name = "stathost"
version = "0.1.0"
edition = "2021"
publish = false

[dependencies]
axum = "*"
futures-util = "*"
mime_guess = "*"
serde = { version = "*", features = ["derive"] }
serde_json = "*"
tokio = { version = "*", features = ["full"] }
tokio-util = { version = "*", features = ["io"] }
toml = "*"
