[package]
name = "nautilus_model"
version = "0.1.0"
edition = "2021"
publish = false

[dependencies]
anyhow = "1"
rust_decimal = "1"
serde = { version = "1", features = ["derive"] }
ustr = { version = "1", features = ["serde"] }
