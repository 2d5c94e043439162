[package]
name = "purple-rs"
version = "0.1.0"
edition = "2021"
publish = false

[dependencies]
futures = "0.3"
log = "0.4"
lazy_static = "1"
glib = "*"
glib-sys = "*"
purple-sys = "*"
