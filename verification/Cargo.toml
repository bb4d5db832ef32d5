[package]
name = "servo_gui"
version = "0.1.0"
edition = "2021"
publish = false

[dependencies]
base64 = "0.6"
image = { version = "0.19", default-features = false, features = ["png_codec"] }
euclid = "0.19"
gleam = "0.6"
glutin = "0.19"
ipc-channel = "0.11"
mime = "0.3"
tinyfiledialogs = "3.3"
winit = "0.18"
