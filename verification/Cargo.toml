[package]
name = "comic_roundup"
version = "0.1.0"
edition = "2021"
publish = false

[dependencies]
regex = "1"
scraper = "*"
serde = { version = "1", features = ["derive"] }
serde_json = "1"
actix-web = "4"
reqwest = "*"
env_logger = "*"
