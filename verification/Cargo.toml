[package]
name = "webreg"
version = "0.1.0"
edition = "2021"
publish = false

[dependencies]
axum = "0.7"
chrono = "0.4"
dashmap = "6"
rand = "0.8"
regex = "1"
reqwest = "0.12"
rusqlite = { version = "0.32", features = ["bundled"] }
scraper = "*"
serde = { version = "1", features = ["derive"] }
serde_json = "1"
sha2 = "0.10"
thiserror = "1"
tokio = { version = "1", features = ["sync", "time", "rt"] }
tracing = "0.1"
url = "2"
webweg = "*"
