[package]
name = "notification_bridge"
version = "0.1.0"
edition = "2021"
publish = false

[dependencies]
serde = { version = "1", features = ["derive"] }
serde_json = "1"
chrono = "0.4"
jni = "*"
ndk-context = "*"
dirs = "*"
