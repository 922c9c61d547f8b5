[package]
name = "nurep"
version = "0.1.0"
edition = "2021"
publish = false

[dependencies]
rustc-serialize = "0.3"
sdl2 = { version = "*", features = ["gfx"] }
