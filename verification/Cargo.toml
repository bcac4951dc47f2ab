[package]
name = "boke"
version = "0.1.0"
edition = "2021"
publish = false

[dependencies]
quick-xml = "=0.37.5"
chrono = "=0.4.45"
scraper = "=0.27.0"
url = "=2.5.8"
reqwest = { version = "=0.13.5", default-features = false, features = ["blocking"] }
