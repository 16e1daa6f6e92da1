[package]
name = "wpaperd"
version = "0.1.0"
edition = "2021"
publish = false

[dependencies]
image = "*"
rand = "0.8"
dowser = "*"
smithay-client-toolkit = "0.15"
