[package]
name = "editimg"
version = "0.1.0"
edition = "2021"
publish = false

[dependencies]
image = "=0.25.10"
clap = { version = "=4.6.7", features = ["derive"] }
rhai = "=1.26.1"
sdl2 = { version = "=0.38.0", features = ["unsafe_textures"] }
simpleio = "=0.2.3"
spmc = "=0.3.0"
