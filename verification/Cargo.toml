[package]
name = "memvro"
version = "0.1.0"
edition = "2021"
publish = false

[dependencies]
chrono = "=0.4.45"
cpal = "0.15"
dasp_sample = "0.11"
hound = "3.5"
reqwest = { version = "0.12", features = ["blocking"] }
screencapturekit = "*"
serde = { version = "1", features = ["derive"] }
serde_json = "=1.0.154"
wasapi = "*"
whisper-rs = "*"
