[package]
name = "wlvideo"
version = "0.1.0"
edition = "2021"
publish = false

[dependencies]
anyhow = "=1.0.104"
derive_more = "=0.99.20"
gstreamer = "=0.16.7"
gstreamer-app = "=0.16.5"
gstreamer-video = "=0.16.7"
smithay-client-toolkit = "=0.12.3"
wayland-client = { version = "=0.28.6", features = ["dlopen"] }
