[package]
name = "bootstrap"
version = "0.1.0"
edition = "2021"
publish = false

[dependencies]
once_cell = "*"
tokio = { version = "*", features = ["macros", "rt-multi-thread", "time", "signal"] }
tokio-graceful-shutdown = "*"
tracing = "*"
tracing-subscriber = { version = "*", features = ["fmt"] }
dotenv = "*"
color-eyre = "*"
