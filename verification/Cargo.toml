[package]
name = "honeybee_camera"
version = "0.1.0"
edition = "2021"
publish = false

[dependencies]
base64 = "0.22"
chrono = "0.4"
dirs = "*"
image = { version = "*", default-features = false, features = ["jpeg"] }
serde = { version = "1", features = ["derive"] }
serde_json = "1"
nokhwa = { version = "0.10", features = ["input-native"] }
notify = "*"
