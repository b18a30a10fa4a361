[package]
name = "media_player"
version = "0.1.0"
edition = "2021"
publish = false

[dependencies]
eframe = { version = "=0.37.0", default-features = false, features = ["default_fonts", "glow", "x11"] }
ffmpeg-next = "=9.0.0"
keepawake = "=0.6.1"
rfd = { version = "=0.17.2", default-features = false, features = ["xdg-portal"] }
rodio = { version = "=0.23.0", default-features = false, features = ["playback"] }
