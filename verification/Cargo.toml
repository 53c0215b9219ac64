[package]
name = "print_jobs"
version = "0.1.0"
edition = "2021"
publish = false

[dependencies]
uuid = { version = "*", features = ["v4"] }
printers = "*"
serde_json = "*"
