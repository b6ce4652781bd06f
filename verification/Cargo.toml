[package]
name = "user_idle"
version = "0.1.0"
edition = "2021"
publish = false

[dependencies]
chrono = { version = "=0.4.45", default-features = false, features = ["clock", "std"] }
evdev = "=0.12.2"
rdev = "=0.5.3"
wayland-client = "=0.31.15"
wayland-protocols = { version = "0.32", features = ["client", "staging"] }
x11 = { version = "=2.21.0", features = ["xlib", "xss"] }
