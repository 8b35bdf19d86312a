[package]
name = "danmaku_pipeline"
version = "0.1.0"
edition = "2021"
publish = false

[dependencies]
anyhow = "1"
tracing = "0.1"
tokio = { version = "1", features = ["sync", "rt", "rt-multi-thread", "macros"] }
