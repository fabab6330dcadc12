[package]
name = "health_handler"
version = "0.1.0"
edition = "2021"
publish = false

[dependencies]
scheduled-executor = "*"
serde = { version = "1", features = ["derive"] }
serde_json = "1"
sysinfo = { version = "0.30", default-features = false }
