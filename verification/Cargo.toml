[package]
name = "webrtc_video"
version = "0.1.0"
edition = "2021"
publish = false

[dependencies]
crossbeam-channel = "0.5"
futures = "0.3"
futures-util = "0.3"
gstreamer = "0.23"
gstreamer-app = "0.23"
serde_json = "1"
tokio = { version = "1", features = ["net", "rt-multi-thread", "sync", "time"] }
tokio-tungstenite = "0.26"
tungstenite = "0.26"
webrtc = "0.12"
