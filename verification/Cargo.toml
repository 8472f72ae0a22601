[package]
name = "ilia"
version = "0.1.0"
edition = "2021"
publish = false

[dependencies]
anyhow = "1"
freedesktop-desktop-entry = "*"
iced = { version = "0.13", default-features = false, features = ["tiny-skia"] }
iced_core = "0.13"
iced_runtime = "0.13"
shell-words = "1"
swayipc = "3"
