[package]
name = "ivlyrics_helper"
version = "0.1.0"
edition = "2021"
publish = false

[dependencies]
serde = { version = "*", features = ["derive"] }
serde_json = "*"
axum = "*"
tokio = { version = "*", features = ["full"] }
tokio-stream = { version = "*", features = ["sync"] }
tower-http = { version = "*", features = ["fs", "cors"] }
futures = "*"
reqwest = { version = "*", default-features = false, features = ["json"] }
semver = "*"
dirs = "*"
