[package]
name = "frontier_audio"
version = "0.1.0"
edition = "2021"
publish = false

[dependencies]
lewton = "*"
rand = "*"
sdl2 = "*"
