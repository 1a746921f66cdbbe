[package]
name = "remote_gpio"
version = "0.1.0"
edition = "2021"
publish = false

[dependencies]
gpio-cdev = "*"
tokio = { version = "*", features = ["rt-multi-thread", "sync", "time", "macros"] }
