[package]
name = "friday"
version = "0.1.0"
edition = "2021"
publish = false

[dependencies]
chrono = { version = "0.4", default-features = false, features = ["clock"] }
cpal = "0.16"
eframe = { version = "0.33", default-features = false, features = ["glow", "x11"] }
global-hotkey = "0.7"
hound = "3.5"
libc = "0.2"
