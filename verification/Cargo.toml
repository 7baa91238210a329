[package]
name = "playground_core"
version = "0.1.0"
edition = "2021"
publish = false

[dependencies]
tokio = { version = "=1.53.2", features = ["rt", "sync", "time", "macros"] }
futures = "=0.3.34"
octocrab = "=0.43.0"
prometheus = "=0.14.0"
