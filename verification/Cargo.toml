[package]
name = "device_frames"
version = "0.1.0"
edition = "2021"
publish = false

[dependencies]
byteorder = "1"
nom = "4.2"
serial = "0.4"
