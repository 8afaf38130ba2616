[package]
name = "justsnap"
version = "0.1.0"
edition = "2021"
publish = false

[dependencies]
xcap = "*"
image = "0.25"
base64 = "0.22"
chrono = "0.4"
dirs = "*"
arboard = "*"
serde = { version = "1", features = ["derive"] }
