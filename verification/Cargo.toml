[package]
name = "tower_resilience"
version = "0.1.0"
edition = "2021"
publish = false

[dependencies]
rand = "0.8"
tokio = { version = "1", features = ["sync", "time"] }
tower = "0.4"
