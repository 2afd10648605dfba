[package]
name = "twtscrape"
version = "0.1.0"
edition = "2021"
publish = false

[dependencies]
ahash = "=0.8.12"
chrono = "=0.4.45"
urlencoding = "=2.1.3"
serde = { version = "=1.0.229", features = ["derive"] }
serde_json = { version = "=1.0.151", features = ["preserve_order"] }
rkyv = "=0.7.46"
tracing = "=0.1.44"
