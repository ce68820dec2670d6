[package]
name = "rss_intelligence"
version = "0.1.0"
edition = "2021"
publish = false

[dependencies]
chrono = "=0.4.45"
md5 = "=0.7.0"
quick-xml = "=0.37.5"
url = "=2.5.8"
serde = { version = "=1.0.229", features = ["derive"] }
serde_json = "=1.0.154"
futures-util = "=0.3.34"
worker = { version = "=0.8.7", features = ["d1", "queue"] }
