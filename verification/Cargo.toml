[package]
name = "sharp"
version = "0.1.0"
edition = "2021"
publish = false

[dependencies]
rs-vips = "=0.7.0"
async-std = "=1.13.2"
serde = { version = "=1.0.229", features = ["derive"] }
