[package]
name = "clearance"
version = "0.1.0"
edition = "2021"
publish = false

[dependencies]
headless_chrome = "*"
serde = { version = "*", features = ["derive"] }
