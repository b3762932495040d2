[package]
name = "animated_rows"
version = "0.1.0"
edition = "2021"
publish = false

[dependencies]
crossbeam-channel = "*"
eframe = { version = "*", default-features = false, features = ["wgpu", "default_fonts", "x11"] }
puffin = "*"
puffin_http = "*"
