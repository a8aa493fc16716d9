[package]
name = "vibeflow"
version = "0.1.0"
edition = "2021"
publish = false

[dependencies]
cpal = "0.15"
parking_lot = "0.12"
rodio = { version = "0.20", default-features = false }
tokio = { version = "1", features = ["macros", "rt-multi-thread", "sync"] }
whisper-rs = "0.14"
zeroize = { version = "1", features = ["derive"] }
