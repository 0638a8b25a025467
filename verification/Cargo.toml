[package]
name = "trailing_stop"
version = "0.1.0"
edition = "2021"
publish = false

[dependencies]
hex = "*"
balius-sdk = "*"
sundae-strategies = "*"
serde = { version = "*", features = ["derive"] }
tracing = "*"
