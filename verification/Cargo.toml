[package]
name = "task_supervisor"
version = "0.1.0"
edition = "2021"
publish = false

[dependencies]
tokio = { version = "1", features = ["process", "rt-multi-thread", "macros", "net", "time"] }
axum = "0.7"
reqwest = { version = "0.12", default-features = false }
