[package]
name = "trend"
version = "0.1.0"
edition = "2021"
publish = false

[dependencies]
chrono = "0.4"
rss = { version = "2", default-features = false }
reqwest = "0.12"
tokio = { version = "1", features = ["full"] }
axum = "0.7"
serde = { version = "1", features = ["derive"] }
