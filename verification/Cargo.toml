[package]
name = "drmem"
version = "0.1.0"
edition = "2021"
publish = false

[dependencies]
toml = "0.8"
palette = "0.7"
futures = "0.3"
tokio = { version = "1", features = ["macros", "rt-multi-thread", "sync", "time"] }
tokio-stream = "0.1"
tracing = "0.1"
tracing-subscriber = "0.3"
