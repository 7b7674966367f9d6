[package]
name = "morphlings"
version = "0.1.0"
edition = "2021"
publish = false

[dependencies]
rand = "0.10"
rodio = "*"
tokio = { version = "1", features = ["full"] }
axum = "0.8"
serde = { version = "1", features = ["derive"] }
serde_json = "1"
camino = { version = "1", features = ["serde1"] }
snafu = "0.8"
