[package]
name = "media_organizer"
version = "0.1.0"
edition = "2021"
publish = false

[dependencies]
kamadak-exif = "*"
mp4 = "*"
chrono = "*"
clap = { version = "*", features = ["derive"] }
colored = "*"
walkdir = "*"
