[package]
name = "webcam_facial"
version = "0.1.0"
edition = "2021"
publish = false

[dependencies]
crossbeam-channel = "=0.5.17"
image = { version = "=0.24.9", default-features = false }
bevy = { version = "=0.12.1", default-features = false, features = ["multi-threaded"] }
futures-lite = "=2.6.1"
rscam = "=0.5.5"
rustface = "=0.1.7"
