[package]
name = "timeline_engine"
version = "0.1.0"
edition = "2021"
publish = false

[dependencies]
gstreamer = "=0.23.7"
gstreamer-app = "=0.23.5"
gstreamer-editing-services = "=0.23.5"
anyhow = "=1.0.104"
log = "=0.4.34"
