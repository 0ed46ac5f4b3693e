[package]
name = "keyboard_mapper"
version = "0.1.0"
edition = "2021"
publish = false

[dependencies]
x11rb = { version = "*", features = ["xkb", "allow-unsafe-code"] }
xkbcommon = { version = "*", features = ["x11"] }
