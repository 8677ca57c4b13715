[package]
name = "usb_midi"
version = "0.1.0"
edition = "2021"
publish = false

[dependencies]
usb-device = "*"
