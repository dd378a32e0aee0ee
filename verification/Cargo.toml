[package]
name = "media_plugins"
version = "0.1.0"
edition = "2021"
publish = false

[dependencies]
yuv = "=0.8.20"
image = { version = "=0.25.10", default-features = false, features = ["png"] }
image-compare = "=0.5.0"
rqrr = "=0.11.0"
itertools = "=0.15.0"
dirs = "=7.0.0"
anyhow = "1"
futures = "0.3"
once_cell = "1"
parking_lot = "0.12"
signal-hook = "0.3"
tokio = { version = "1", features = ["rt-multi-thread", "time"] }
tracing = "0.1"
