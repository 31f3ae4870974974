[package]
name = "dist_semaphore"
version = "0.1.0"
edition = "2021"
publish = false

[dependencies]
redis = { version = "*", features = ["tokio-comp"] }
tokio = { version = "*", features = ["rt", "rt-multi-thread", "time", "macros"] }
