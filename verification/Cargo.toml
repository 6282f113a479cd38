[package]
name = "task_log"
version = "0.1.0"
edition = "2021"
publish = false

[dependencies]
chrono = "0.4"
colorful = "0.2"
lazy_static = "1.4"

[dev-dependencies]
anyhow = "1"
