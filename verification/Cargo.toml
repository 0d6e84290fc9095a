[package]
name = "act4g"
version = "0.1.0"
edition = "2021"
publish = false

[dependencies]
serde = { version = "1", features = ["derive"] }
serde_json = "1"
anyhow = "1"
log = "0.4"
reqwest = { version = "0.12", default-features = false, features = ["rustls-tls"] }
smol = "2"
jni = "*"
android_logger = "*"
android-activity = "*"
