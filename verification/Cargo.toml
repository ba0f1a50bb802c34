[package]
name = "graceful_shutdown"
version = "0.1.0"
edition = "2021"
publish = false

[dependencies]
tokio = { version = "*", features = ["macros", "rt-multi-thread", "signal", "sync", "time"] }
tokio-util = "*"
