[package]
name = "paperspace"
version = "0.1.0"
edition = "2021"
publish = false

[dependencies]
axum = { version = "*", features = ["ws"] }
futures = "*"
mime_guess = "*"
open = "*"
platform-dirs = "*"
serde = { version = "*", features = ["derive"] }
serde_json = "*"
sqlx = { version = "*", default-features = false, features = ["runtime-tokio", "sqlite"] }
tokio = { version = "*", features = ["full"] }
tokio-util = "*"
toml = "*"
