[package]
name = "dora_gst_webrtc_sink"
version = "0.1.0"
edition = "2021"
publish = false

[dependencies]
uuid = { version = "*", features = ["v4"] }
serde = { version = "*", features = ["derive"] }
serde_json = "*"
log = "*"
env_logger = "*"
anyhow = "*"
eyre = "*"
futures = "*"
tokio = { version = "*", features = ["rt-multi-thread", "macros", "sync", "time"] }
warp = "0.3"
glib = "0.20"
gstreamer = "0.23"
gstreamer-app = "0.23"
gstreamer-sdp = "0.23"
gstreamer-webrtc = "0.23"
arrow = { version = "*", default-features = false }
