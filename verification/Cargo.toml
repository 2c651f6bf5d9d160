[package]
name = "oranda"
version = "0.1.0"
edition = "2021"
publish = false

[dependencies]
url = "=2.5.8"
base64 = "*"
chrono = "*"
minifier = "*"
serde = { version = "=1.0.229", features = ["derive"] }
serde_json = "=1.0.151"
clap = { version = "=4.6.7", features = ["derive"] }
notify-debouncer-mini = "=0.7.0"
