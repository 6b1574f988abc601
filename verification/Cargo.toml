[package]
name = "esfwee"
version = "0.1.0"
edition = "2021"
publish = false

[dependencies]
anyhow = "1"
axum = { version = "0.8", features = ["multipart"] }
bincode = "2"
chrono = "0.4"
dotenv = "0.15"
hex = "0.4"
reqwest = { version = "0.12", default-features = false, features = ["rustls-tls"] }
rust-anilist = "*"
scraper = "*"
serde = { version = "1", features = ["derive"] }
serde_json = "1"
sha2 = "0.10"
sled = "0.34"
sqlx = { version = "0.8", default-features = false, features = ["sqlite", "runtime-tokio", "derive", "migrate"] }
tokio = { version = "1", features = ["full"] }
tokio-util = { version = "0.7", features = ["io"] }
url = "2"
urlencoding = "2"
zip = { version = "2", default-features = false, features = ["deflate"] }
