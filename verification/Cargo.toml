[package]
name = "segment_capture"
version = "0.1.0"
edition = "2021"
publish = false

[dependencies]
anyhow = "1"
clap = { version = "4", features = ["derive"] }
cpal = "0.15"

[dev-dependencies]
hound = "3.5"
