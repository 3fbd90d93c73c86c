[package]
name = "audio_hal_harness"
version = "0.1.0"
edition = "2021"
publish = false

[dependencies]
cubeb-backend = { version = "*", features = ["gecko-in-tree"] }
coreaudio-sys = { version = "*", default-features = false, features = ["audio_unit", "core_audio"] }
core-foundation-sys = "*"
