[package]
name = "music_scan"
version = "0.1.0"
edition = "2021"
publish = false

[dependencies]
lofty = "*"
walkdir = "*"
serde = { version = "*", features = ["derive"] }
serde_json = "*"
