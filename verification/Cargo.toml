[package]
name = "stringbar"
version = "0.1.0"
edition = "2021"
publish = false

[dependencies]
chrono = "0.4"
directories = "5"
notify = "6"
ron = "0.8"
serde = { version = "1", features = ["derive"] }
sysinfo = "0.30"
tracing = "0.1"
tracing-subscriber = "0.3"
