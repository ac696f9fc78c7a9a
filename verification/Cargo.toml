[package]
name = "audio_rms"
version = "0.1.0"
edition = "2021"
publish = false

[dependencies]
anyhow = "1"
derive_more = "0.99"
gstreamer = "0.18"
gstreamer-app = "0.18"
