[package]
name = "statusbar"
version = "0.1.0"
edition = "2021"
publish = false

[dependencies]
chrono = "0.4"
chrono-tz = "0.8"
sysinfo = { version = "0.30", default-features = false }
x11rb = "0.13"
