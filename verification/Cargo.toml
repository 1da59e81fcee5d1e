[package]
name = "alarm_clock"
version = "0.1.0"
edition = "2021"
publish = false

[dependencies]
async-channel = "2"
chrono = { version = "0.4", default-features = false, features = ["clock"] }
glib = "0.18"
gstreamer = "0.21"
gtk = "0.18"
rodio = "0.17"
serde = { version = "1", features = ["derive"] }
serde_json = "1"
