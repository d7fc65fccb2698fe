[package]
name = "v210gl"
version = "0.1.0"
edition = "2021"
publish = false

[dependencies]
gstreamer = "*"
gstreamer-base = "*"
gstreamer-gl = "*"
gstreamer-video = "*"
