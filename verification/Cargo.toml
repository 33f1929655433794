[package]
name = "audio_waterfall"
version = "0.1.0"
edition = "2021"
publish = false

[dependencies]
cpal = "0.15"
egui = { version = "0.28", default-features = false }
rustfft = "6"
serde = { version = "1", features = ["derive"] }
