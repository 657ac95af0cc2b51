[package]
name = "window"
version = "0.1.0"
edition = "2021"
publish = false

[dependencies]
anyhow = "=1.0.104"
filedescriptor = "=0.8.3"
libc = "=0.2.191"
log = "=0.4.34"
raw-window-handle = "=0.3.4"
smithay-client-toolkit = "=0.12.3"
wayland-client = { version = "=0.28.6", features = ["use_system_lib", "dlopen"] }
wezterm-input-types = "=0.1.0"
wgpu = "=0.7.1"
