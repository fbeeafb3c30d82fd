[package]
name = "dfu_nusb"
version = "0.1.0"
edition = "2021"
publish = false

[dependencies]
dfu-core = { version = "0.6", features = ["std"] }
nusb = "0.1"
thiserror = "1"
