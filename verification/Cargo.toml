[package]
name = "yuubox-core"
version = "0.1.0"
edition = "2021"
publish = false

[dependencies]
anyhow = "1"
bollard = "0.15"
futures-util = "0.3"
pyo3 = { version = "0.20", features = ["extension-module"] }
tokio = { version = "1", features = ["rt-multi-thread", "time"] }
uuid = { version = "1", features = ["v4"] }
