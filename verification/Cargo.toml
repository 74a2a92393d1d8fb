[package]
name = "cache_scraper"
version = "0.1.0"
edition = "2021"
publish = false

[dependencies]
clap = "=3.2.25"
indicatif = "0.17"
rand = "=0.8.8"
reqwest = "=0.11.27"
serde = { version = "=1.0.229", features = ["derive"] }
serde_json = "=1.0.154"
tokio = { version = "=1.54.1", features = ["full"] }
trust-dns-resolver = "=0.22.0"
