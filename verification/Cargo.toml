[package]
name = "painter"
version = "0.1.0"
edition = "2021"
publish = false

[dependencies]
slint = { version = "=1.18.1", default-features = false, features = ["std", "compat-1-2"] }
tiny-skia = "=0.11.4"
rgb = "=0.8.53"
