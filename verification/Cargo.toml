[package]
name = "fos_server"
version = "0.1.0"
edition = "2021"
publish = false

[dependencies]
aeronet_webtransport = "*"
