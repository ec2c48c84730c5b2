[package]
name = "ascii_video"
version = "0.1.0"
edition = "2021"
publish = false

[dependencies]
anyhow = "1"
bytes = "1"
crossterm = "*"
ffmpeg-next = "*"
futures = "0.3"
ratatui = "*"
rayon = "1"
rodio = { version = "0.20", default-features = false }
tokio = { version = "1", features = ["full"] }
tokio-stream = "0.1"
tokio-util = { version = "0.7", features = ["io", "io-util"] }
webm-iterable = "*"
