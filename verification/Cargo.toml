[package]
name = "flatpak_backend"
version = "0.1.0"
edition = "2021"
publish = false

[dependencies]
appstream = "0.2.2"
flate2 = "1"
libflatpak = "*"
