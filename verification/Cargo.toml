[package]
name = "snake_core"
version = "0.1.0"
edition = "2021"
publish = false

[dependencies]
rand = "0.8"
softbuffer = "0.2"
tiny-skia = "0.8"
winit = { version = "0.28", default-features = false, features = ["x11"] }
