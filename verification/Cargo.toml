[package]
name = "feed_fetcher"
version = "0.1.0"
edition = "2021"
publish = false

[dependencies]
feed-rs = "2"
reqwest = "0.12"
tokio = { version = "1", features = ["macros", "rt-multi-thread"] }
tracing = "0.1"
tracing-subscriber = { version = "0.3", features = ["env-filter"] }
