[package]
name = "wayland_dispatch"
version = "0.1.0"
edition = "2021"
publish = false

[dependencies]
wayland-commons = "0.29"
downcast-rs = "1"
