[package]
name = "exifgeo"
version = "0.1.0"
edition = "2021"
publish = false

[dependencies]
kamadak-exif = "0.6"
serde = { version = "1", features = ["derive"] }
serde_json = "1"
walkdir = "2"
