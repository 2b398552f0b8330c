[package]
name = "mtgo_capture"
version = "0.1.0"
edition = "2021"
publish = false

[dependencies]
chrono = "*"
serde = { version = "*", features = ["derive"] }
thiserror = "*"
tokio = { version = "*", features = ["sync", "rt", "rt-multi-thread", "time", "macros"] }
tracing = "*"
windivert = "*"
