[package]
name = "tinyusb"
version = "0.1.0"
edition = "2021"
publish = false

[dependencies]
byteorder = { version = "1", default-features = false }
bitflags = "2"
heapless = "0.8"
embassy-usb = "*"
embassy-time = "*"
