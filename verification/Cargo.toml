[package]
name = "browser_for_remote"
version = "0.1.0"
edition = "2021"
publish = false

[dependencies]
anyhow = "1"
chrono = "0.4"
headless_chrome = "*"
rand = "0.8"
reqwest = { version = "*", default-features = false, features = ["blocking"] }
serde_json = "1"
