[package]
name = "mart_status"
version = "0.1.0"
edition = "2021"
publish = false

[dependencies]
serde_json = "1"
nipper = "0.1"
serde = { version = "1", features = ["derive"] }
chrono = "0.4"
chrono-tz = "*"
urlencoding = "2"
tide = "0.16"
async-std = "1"
eyre = "0.6"
surf = { version = "2", default-features = false, features = ["h1-client-rustls"] }
