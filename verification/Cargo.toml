[package]
name = "opendeck"
version = "0.1.0"
edition = "2021"
publish = false

[dependencies]
heapless = "=0.8.0"
midi2 = { version = "=0.11.1", default-features = false, features = ["channel-voice1", "sysex7", "system-common"] }
