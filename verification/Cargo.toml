[package]
name = "schedule_announcer"
version = "0.1.0"
edition = "2021"
publish = false

[dependencies]
anyhow = "*"
chrono = "*"
clap = { version = "*", features = ["derive", "env"] }
dapnet-api = "*"
metrics = "*"
metrics-exporter-prometheus = "*"
tokio = { version = "*", features = ["macros", "rt-multi-thread", "signal", "time"] }
tracing = "*"
tracing-subscriber = "*"
url = "*"
