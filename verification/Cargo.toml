[package]
name = "app_review_crawler"
version = "0.1.0"
edition = "2021"
publish = false

[dependencies]
quick-xml = "0.31"
reqwest = "0.12"
tokio = { version = "1", features = ["rt-multi-thread", "macros", "time", "sync"] }
serde = { version = "1", features = ["derive"] }
serde_json = "1"
csv = "1"
tracing = "0.1"
tracing-subscriber = "0.3"
