[package]
name = "render_core"
version = "0.1.0"
edition = "2021"
publish = false

[dependencies]
anyhow = "*"
bitflags = "*"
glow = "*"
glutin = "*"
impellers = "*"
khronos-egl = { version = "*", features = ["static"] }
log = "*"
parking_lot = "*"
raw-window-handle = "*"
thiserror = "*"
wayland-backend = { version = "*", features = ["dlopen"] }
wayland-client = "*"
wayland-egl = "*"
wayland-protocols-wlr = { version = "*", features = ["client"] }
