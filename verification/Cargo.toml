[package]
name = "tunfwd"
version = "0.1.0"
edition = "2021"
publish = false

[dependencies]
ipnet = "*"
libc = "*"
tokio = { version = "*", features = ["rt-multi-thread", "macros", "net", "io-util", "fs", "signal"] }
