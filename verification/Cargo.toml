[package]
name = "frame_relay"
version = "0.1.0"
edition = "2021"
publish = false

[dependencies]
clap = { version = "*", features = ["derive"] }
gstreamer = "*"
gstreamer-app = "*"
realsense-rust = "*"
