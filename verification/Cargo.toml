[package]
name = "circles"
version = "0.1.0"
edition = "2021"
publish = false

[dependencies]
regex = "1"
urlencoding = "2"
serenity = "0.11"
tokio = { version = "1", features = ["macros", "rt-multi-thread"] }
mongodb = "2"
serde = { version = "1", features = ["derive"] }
serde_json = "1"
chrono = "0.4"
eyre = "0.6"
