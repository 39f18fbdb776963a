[package]
name = "tweet_votes"
version = "0.1.0"
edition = "2021"
publish = false

[dependencies]
axum = "0.7"
once_cell = "1"
redis = "0.25"
rust-embed = "8"
serde = { version = "1", features = ["derive"] }
thiserror = "1"
tokio = { version = "1", features = ["full"] }
tower-http = { version = "0.5", features = ["cors"] }
