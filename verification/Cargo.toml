[package]
name = "dashboard_core"
version = "0.1.0"
edition = "2021"
publish = false

[dependencies]
rand = "0.8"
tui = { version = "0.19", default-features = false, features = ["termion"] }
termion = "1"
serialport = { version = "4", default-features = false }
