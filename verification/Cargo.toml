[package]
name = "wizscribe"
version = "0.1.0"
edition = "2021"
publish = false

[dependencies]
crossbeam-channel = "*"
hound = "*"
cpal = "*"
serde = { version = "*", features = ["derive"] }
serde_json = "*"
