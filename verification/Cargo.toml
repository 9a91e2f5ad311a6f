[package]
name = "cynthion"
version = "0.1.0"
edition = "2021"
publish = false

[dependencies]
anyhow = "1"
futures-channel = "0.3"
futures-lite = "2"
futures-util = "0.3"
nusb = "0.1"
