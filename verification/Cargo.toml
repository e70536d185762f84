[package]
name = "mavlink_camera_manager"
version = "0.1.0"
edition = "2021"
publish = false

[dependencies]
anyhow = "1"
clap = "2"
gstreamer = "0.20"
log = "0.4"
tracing = "0.1"
uuid = { version = "1", features = ["v4"] }
