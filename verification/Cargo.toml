[package]
name = "playful_youngster"
version = "0.1.0"
edition = "2021"
publish = false

[dependencies]
bitmaps = { version = "=3.2.1", default-features = false }
thiserror = "=1.0.69"
winit = { version = "=0.30.13", default-features = false, features = ["x11", "rwh_06"] }
cpal = "=0.15.3"
