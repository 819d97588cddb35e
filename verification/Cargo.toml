[package]
name = "rmk-driver-azoteq-iqs5xx"
version = "0.1.0"
edition = "2021"
publish = false

[dependencies]
embedded-hal = "=1.0.0"
embedded-hal-async = "=1.0.0"
embassy-time = "=0.4.0"
embassy-sync = "=0.7.2"
usbd-hid = "=0.8.2"
rmk = "=0.7.8"
trouble-host = { version = "=0.2.4", features = ["scan"] }
bt-hci = "=0.3.2"
