[package]
name = "m4b_maker"
version = "0.1.0"
edition = "2021"
publish = false

[dependencies]
eframe = { version = "=0.37.0", default-features = false, features = ["default_fonts", "glow", "x11"] }
rfd = "=0.15.4"
tempfile = "=3.27.0"
wayland-backend = { version = "=0.3.17", features = ["dlopen"] }
