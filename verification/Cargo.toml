[package]
name = "wasabi"
version = "0.3.1"
edition = "2021"
publish = false

[dependencies]
qrcode = { version = "0.14", default-features = false }
