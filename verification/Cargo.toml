[package]
name = "active_sse"
version = "0.1.0"
edition = "2021"
publish = false

[dependencies]
sse-client = "*"
