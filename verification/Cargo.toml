[package]
name = "weather_exporter"
version = "0.1.0"
edition = "2021"
publish = false

[dependencies]
compile-time = "*"
prometheus_exporter = "*"
reqwest = { version = "*", default-features = false, features = ["json", "query"] }
serde = { version = "*", features = ["derive"] }
tokio = { version = "*", features = ["rt-multi-thread", "macros", "time"] }
