[package]
name = "enter_bridge"
version = "0.1.0"
edition = "2021"
publish = false

[dependencies]
gilrs = "*"
melon = "*"
rpi-led-matrix = "*"
sdl2 = "*"
