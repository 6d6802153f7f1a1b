[package]
name = "vinyl_library_api"
version = "0.1.0"
edition = "2021"
publish = false

[dependencies]
mysql = "*"
rocket = { version = "0.5", features = ["json"] }
serde = { version = "1", features = ["derive"] }
