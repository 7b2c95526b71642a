[package]
name = "prandtl"
version = "0.1.0"
edition = "2021"
publish = false

[dependencies]
tokio = { version = "*", features = ["rt-multi-thread", "macros", "signal", "sync", "time"] }
tokio-util = { version = "*", features = ["rt"] }
serialport = { version = "*", default-features = false }
systemstat = "*"
