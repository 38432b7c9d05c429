[package]
name = "invader"
version = "0.1.0"
edition = "2021"
publish = false

[dependencies]
rand = "0.8"
anyhow = "1"
crossterm = "0.27"
cfonts = "1"
rodio = { version = "0.17", default-features = false, features = ["mp3"] }
image = { version = "0.25", default-features = false, features = ["png"] }
imageproc = { version = "0.25", default-features = false }
ab_glyph = "0.2"
