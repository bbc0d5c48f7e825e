[package]
name = "power_monitor"
version = "0.1.0"
edition = "2021"
publish = false

[dependencies]
zbus = "3"
tokio = { version = "1", features = ["rt-multi-thread"] }
