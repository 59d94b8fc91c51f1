[package]
name = "video_archiver"
version = "0.1.0"
edition = "2021"
publish = false

[dependencies]
filetime = "=0.2.29"
futures = "=0.3.34"
glob = "=0.3.4"
html-escape = "=0.2.15"
js-sandbox = "=0.1.6"
regex = "=1.13.1"
reqwest = "=0.11.27"
scraper = { version = "=0.13.0", features = ["deterministic"] }
serde = { version = "=1.0.229", features = ["derive"] }
serde_json = "=1.0.154"
time = { version = "=0.3.55", features = ["formatting", "parsing"] }
tokio = { version = "=1.54.1", features = ["full"] }
