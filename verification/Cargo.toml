[package]
name = "foamshot"
version = "0.1.0"
edition = "2021"
publish = false

[dependencies]
log = "0.4"
smithay-client-toolkit = { version = "0.19", default-features = false }
wayland-client = "0.31"
wayland-protocols = { version = "0.32", features = ["client"] }
wayland-protocols-wlr = { version = "0.3", features = ["client"] }
