[package]
name = "chord_drums"
version = "0.1.0"
edition = "2021"
publish = false

[dependencies]
midi-convert = "*"
usbd-midi = "*"
usb-device = "*"
