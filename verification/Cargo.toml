[package]
name = "rust_mario"
version = "0.1.0"
edition = "2021"
publish = false

[dependencies]
gif = "*"
image = "*"
macroquad = "*"
