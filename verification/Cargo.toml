[package]
name = "x11_windows"
version = "0.1.0"
edition = "2021"
publish = false

[dependencies]
image = { version = "0.25", default-features = false }
log = "0.4"
xcb = "1"
