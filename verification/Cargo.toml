[package]
name = "lissajous"
version = "0.1.0"
edition = "2021"
publish = false

[dependencies]
anyhow = "1"
eframe = { version = "0.37", default-features = false, features = ["default_fonts", "glow", "x11"] }
meval = "0.2"
rodio = { version = "0.23", default-features = false, features = ["playback"] }
