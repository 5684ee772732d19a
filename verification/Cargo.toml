[package]
name = "fm_synth"
version = "0.1.0"
edition = "2021"
publish = false

[dependencies]
ringbuf = "0.2"
musical_keyboard = "*"
dasp = { version = "0.11", features = ["signal"] }
nannou = "0.15"
nannou_audio = "0.15"
