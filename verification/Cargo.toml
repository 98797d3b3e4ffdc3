[package]
name = "xroagwem"
version = "0.1.0"
edition = "2021"
publish = false

[dependencies]
x11 = { version = "2", features = ["xlib", "xft", "xrender"] }
chrono = "0.4"
sysinfo = "*"
lazy_static = "1"
