[package]
name = "pixel_engine"
version = "0.1.0"
edition = "2021"
publish = false

[dependencies]
zlib-rs = "*"
sdl3-sys = "*"
sdl3-image-sys = "*"
sdl3-ttf-sys = "*"
tokio = { version = "1", default-features = false, features = ["sync"] }
