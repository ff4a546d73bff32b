[package]
name = "yield_now"
version = "0.1.0"
edition = "2021"
publish = false

[dependencies]
tokio = { version = "1", features = ["rt"] }
async-std = "1"
futures-lite = "2"
