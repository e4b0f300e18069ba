[package]
name = "fusb302b"
version = "0.1.0"
edition = "2021"
publish = false

[dependencies]
embedded-hal-async = "*"
embassy-time = "*"
usbpd-traits = "*"
thiserror = "*"
