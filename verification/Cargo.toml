[package]
name = "seat_core"
version = "0.1.0"
edition = "2021"
publish = false

[dependencies]
libc = "=0.2.191"
wayland-sys = { version = "=0.21.13", features = ["server", "dlopen"] }
wlroots-sys = "=0.4.0"
xkbcommon = "=0.9.0"
