[package]
name = "scheduled"
version = "0.1.0"
edition = "2021"
publish = false

[dependencies]
config = "*"
tokio = { version = "*", features = ["rt-multi-thread", "time", "macros", "signal"] }
tokio-cron-scheduler = "*"
