[package]
name = "nakadi"
version = "0.1.0"
edition = "2021"
publish = false

[dependencies]
hdrsample = "=6.0.4"
serde = { version = "=1.0.229", features = ["derive"] }
